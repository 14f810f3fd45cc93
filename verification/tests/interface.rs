use panduza_core::info::devices::InfoDynamicDeviceStatus;
use panduza_core::interface::builder::{finish_interface, interface_element, InterfaceBuilder};
use panduza_core::interface::fsm::{
    next_state, task_for, Events, State, StateTask, CLEANED, CONNECTION_DOWN, CONNECTION_UP, ERROR,
    INIT_DONE, REBOOT, STOP,
};
use panduza_core::interface::interface::Interface;
use panduza_core::interface::logger::Logger;
use panduza_core::logger::LogLevel;

#[test]
fn state_names() {
    assert_eq!(State::Connecting.to_string(), "Connecting");
    assert_eq!(State::Initializating.to_string(), "Initializating");
    assert_eq!(State::Stopping.to_string(), "Stopping");
}

#[test]
fn events_insert_and_contain() {
    let mut e = Events::empty();
    assert!(!e.contains(Events::from_bits(CONNECTION_UP)));
    e.insert(Events::from_bits(CONNECTION_UP));
    e.insert(Events::from_bits(ERROR));
    assert!(e.contains(Events::from_bits(CONNECTION_UP)));
    assert!(e.contains(Events::from_bits(ERROR)));
    assert!(e.contains(Events::from_bits(CONNECTION_UP | ERROR)));
    assert!(!e.contains(Events::from_bits(REBOOT)));
    assert_eq!(e.bits, CONNECTION_UP | ERROR);
}

#[test]
fn fsm_transitions() {
    let ev = |b: u32| Events::from_bits(b);
    assert_eq!(next_state(State::Connecting, ev(CONNECTION_UP)), Some(State::Initializating));
    assert_eq!(next_state(State::Connecting, ev(CONNECTION_UP | ERROR)), None);
    assert_eq!(next_state(State::Initializating, ev(INIT_DONE)), Some(State::Running));
    assert_eq!(next_state(State::Initializating, ev(INIT_DONE | ERROR)), Some(State::Warning));
    assert_eq!(next_state(State::Initializating, ev(STOP)), Some(State::Stopping));
    assert_eq!(next_state(State::Running, ev(CONNECTION_DOWN)), Some(State::Warning));
    assert_eq!(next_state(State::Running, ev(STOP)), Some(State::Stopping));
    assert_eq!(next_state(State::Running, ev(0)), None);
    assert_eq!(next_state(State::Warning, ev(REBOOT)), Some(State::Cleaning));
    assert_eq!(next_state(State::Cleaning, ev(CLEANED)), Some(State::Connecting));
    assert_eq!(next_state(State::Stopping, ev(0xff)), None);
}

#[test]
fn fsm_tasks() {
    assert_eq!(task_for(State::Warning), StateTask::WaitBeforeReboot);
    assert_eq!(task_for(State::Stopping), StateTask::Cleaning);
    assert_eq!(task_for(State::Running), StateTask::Running);
}

#[test]
fn fsm_reboot_path_returns_to_connecting() {
    let mut s = State::Running;
    for bits in [ERROR, REBOOT, CLEANED, CONNECTION_UP, INIT_DONE] {
        s = next_state(s, Events::from_bits(bits)).unwrap();
    }
    assert_eq!(s, State::Running);
}

#[test]
fn interface_topics_and_state_changes() {
    let mut itf = Interface::new("itf", "dev", "bench", "blc", "0.0");
    assert_eq!(itf.name(), "itf");
    assert_eq!(itf._dev_name(), "dev");
    assert_eq!(itf._bench_name(), "bench");
    assert_eq!(*itf.current_state(), State::Connecting);
    assert_eq!(itf.events().bits, 0);

    assert_eq!(itf.info().itype, "blc");
    assert_eq!(itf.info().version, "0.0");
    assert_eq!(itf.info().state, "");
    let log = itf.move_to_state(State::Running);
    assert_eq!(itf.info().state, "Running");
    assert_eq!(itf.info().error, "");
    assert_eq!(log.text, "State changed Connecting => Running");
    assert_eq!(log.level, LogLevel::Info);
    assert_eq!(log.class, "Interface");
    assert_eq!((log.i1.as_str(), log.i2.as_str(), log.i3.as_str()), ("bench", "dev", "itf"));

    itf.set_event_error("boom");
    assert!(itf.events().contains(Events::from_bits(ERROR)));
    let _ = itf.move_to_state(State::Warning);
    assert_eq!(itf.info().error, "boom");
    assert_eq!(itf.info().state, "Warning");
    assert_eq!(itf.log_last_error().text, "Last error message: boom");
    itf.clear_events();
    assert_eq!(itf.events().bits, 0);
}

#[test]
fn interface_connection_cache() {
    let mut itf = Interface::new("a", "b", "c", "relay", "1");
    itf.trigger_event_connection_cache();
    assert_eq!(itf.events().bits, 0);
    assert_eq!(itf.log_last_error().text, "No error message");
    itf.set_event_connection_up();
    itf.clear_events();
    itf.trigger_event_connection_cache();
    assert!(itf.events().contains(Events::from_bits(CONNECTION_UP)));
    itf.set_event_connection_down();
    itf.clear_events();
    itf.trigger_event_connection_cache();
    assert_eq!(itf.events().bits, 0);
    itf.set_event_init_done();
    itf.set_event_reboot();
    itf.set_event_cleaned();
    assert_eq!(itf.events().bits, INIT_DONE | REBOOT | CLEANED);
}

#[test]
fn interface_logger_records() {
    let l = Logger::new("b", "d", "i");
    let w = l.log_warn("careful");
    assert_eq!(w.level, LogLevel::Warn);
    assert_eq!(w.text, "careful");
    assert_eq!(l.log_trace("t").level, LogLevel::Trace);
    assert_eq!(l.duplicate().log_info("x").i3, "i");
    let itf = Interface::new("n", "d", "b", "t", "v");
    assert_eq!(itf.clone_logger().log_info("y").i1, "b");
    assert_eq!(itf.log_warn("z").level, LogLevel::Warn);
    assert_eq!(itf.log_info("z").level, LogLevel::Info);
}

#[test]
fn interface_builder_requires_a_name() {
    assert!(InterfaceBuilder::new().build().is_err());
    let itf = InterfaceBuilder::new().with_name("power").with_description("psu").build().unwrap();
    assert_eq!(itf.get_name(), "power");
    let e = interface_element("pza/b/d/power", vec!["tag".to_string()]);
    assert_eq!(e.name(), "power");
}

#[test]
fn a_run_ends_with_the_transition_and_a_publication() {
    let mut itf = Interface::new("i", "d", "b", "blc", "0.0");
    let end = itf.end_run();
    assert!(end.change.is_none());
    assert!(end.publish_all_attributes);
    assert_eq!(*itf.current_state(), State::Connecting);
    itf.set_event_connection_up();
    let end = itf.end_run();
    assert_eq!(end.change.unwrap().text, "State changed Connecting => Initializating");
    assert!(end.publish_all_attributes);
    assert_eq!(*itf.current_state(), State::Initializating);
    assert_eq!(itf.info().state, "Initializating");
    assert_eq!(itf.events().bits, 0);
    itf.set_event_error("bad");
    let end = itf.end_run();
    assert!(end.change.is_some());
    assert_eq!(*itf.current_state(), State::Warning);
    assert_eq!(itf.info().error, "bad");
}

#[test]
fn finishing_an_interface_fills_the_device_structure() {
    let mut status = InfoDynamicDeviceStatus::new();
    let topic = "ns/pza/host/dev/power";
    assert!(status.structure().accepts_topic(topic));
    finish_interface(&mut status, topic.to_string(), vec!["psu".to_string()]).unwrap();
    assert!(status.structure().is_element_exist(topic).unwrap());
    let below = "ns/pza/host/dev/power/channel";
    assert!(status.structure().accepts_topic(below));
    finish_interface(&mut status, below.to_string(), Vec::new()).unwrap();
    assert!(status.structure().is_element_exist(below).unwrap());
    let missing = "ns/pza/host/dev/nothing/channel";
    assert!(status.structure().accepts_topic(missing));
    assert!(finish_interface(&mut status, missing.to_string(), Vec::new()).is_err());
    assert!(!status.structure().accepts_topic("ns/pza/host/dev/power/nothing/x"));
    assert!(!status.structure().accepts_topic("no/topic"));
}
