use panduza_core::device::DeviceBuilder;
use panduza_core::factory::Producer;
use panduza_core::info::structure::topic_is_well_formed;
use panduza_core::platform::connection_info::Info;
use panduza_core::factory::{Factory, ProductionOrder, RootProducer};
use panduza_core::info::devices::{DeviceState, InfoDevRequest, InfoDevs, InfoDynamicDeviceStatus, RequestType};
use panduza_core::json::{object_get, JsonNumber, JsonValue};
use panduza_core::logger::{FactoryLogger, GenericLogger, LogLevel, PlatformLogger};
use panduza_core::reactor::{local_scan_reply, millis_from, now_millis, decimal_string, root_topic, scan_reply, MessageDispatcher, ReactorSettings};
use panduza_core::registry::Registry;
use panduza_core::subscription::{Filter, runner_requests, starter_requests, ConnectionStatusMessage, MqttMessage, ID_PZA, ID_PZA_CMDS_SET};
use panduza_core::text::{child_topic, join_topic, split_topic};

#[test]
fn registry_insert_get_and_replace() {
    let mut r: Registry<u32> = Registry::new();
    assert_eq!(r.len(), 0);
    r.insert("a".to_string(), 1);
    r.insert("b".to_string(), 2);
    r.insert("a".to_string(), 3);
    assert_eq!(r.len(), 2);
    assert_eq!(r.get("a"), Some(&3));
    assert_eq!(r.get("b"), Some(&2));
    assert_eq!(r.get("c"), None);
    assert!(r.contains_key("b"));
    assert!(!r.contains_key("z"));
    assert_eq!(r.entries().len(), 2);
}

#[test]
fn device_status_updates_are_published_once() {
    let mut s = InfoDynamicDeviceStatus::new();
    assert_eq!(s.state_as_string(), "Booting");
    let p = s.take_status_update().unwrap();
    match &p {
        JsonValue::Object(e) => {
            assert_eq!(e.len(), 1);
            assert_eq!(e[0].0, "state");
            assert!(matches!(&e[0].1, JsonValue::String(t) if t == "Booting"));
        }
        _ => panic!("not an object"),
    }
    assert!(s.take_status_update().is_none());
    s.change_state(DeviceState::Running);
    assert_eq!(s.state_as_string(), "Running");
    assert!(s.has_been_updated());
    assert!(!s.has_been_updated());
    assert!(s.structure().is_element_exist("ns/pza/host/dev/x").is_ok());
}

#[test]
fn info_devs_requests_and_registration() {
    let mut devs: InfoDevs<u8> = InfoDevs::new();
    assert!(devs.pop_next_request().is_none());
    devs.push_device_creation_request("d1".to_string());
    devs.push_device_creation_request("d2".to_string());
    let req = devs.pop_next_request().unwrap();
    assert_eq!(req.name, "d2");
    assert_eq!(req.rtype, RequestType::Create);
    devs.validate_creation_request(req, 7);
    assert_eq!(devs.get_dev_info("d2"), Some(&7));
    assert_eq!(devs.get_dev_info("d1"), None);
    assert_eq!(devs.devs().len(), 1);
    let r = InfoDevRequest::new(RequestType::Delete, "x".to_string());
    assert_eq!(r.rtype, RequestType::Delete);
}

#[test]
fn factory_registers_producers_by_reference() {
    let mut f: Factory<RootProducer> = Factory::new();
    assert_eq!(f.startup_log().text, "# Device factory initialization");
    let log = f.add_producer(*RootProducer::new());
    assert_eq!(log.text, "  - _._");
    assert_eq!(log.level, LogLevel::Info);
    assert_eq!(log.class, "Factory");
    assert!(f.producer("_._").is_some());
    assert!(f.producer("x.y").is_none());
    let logs = f.add_producers(vec![*RootProducer::new(), *RootProducer::new()]);
    assert_eq!(logs.len(), 2);
    let o = ProductionOrder::new("panduza.fake_register_map", "memory_map");
    assert_eq!(o.device_ref(), "panduza.fake_register_map");
    assert_eq!(o.device_name, "memory_map");
    let j = ProductionOrder::from_json(&JsonValue::Null);
    assert_eq!(j.device_ref, "rtok");
    assert_eq!(j.device_name, "test");
}

#[test]
fn loggers_name_their_emitter() {
    let g = GenericLogger::new("Device", "a", "b", "c");
    let r = g.info("hello");
    assert_eq!((r.class.as_str(), r.i1.as_str(), r.i2.as_str(), r.i3.as_str(), r.text.as_str()), ("Device", "a", "b", "c", "hello"));
    let p = PlatformLogger::new();
    assert_eq!(p.info("i").class, "Platform");
    assert_eq!(p.warn("w").level, LogLevel::Warn);
    assert_eq!(p.debug("d").level, LogLevel::Debug);
    assert_eq!(p.error("e").level, LogLevel::Error);
    assert_eq!(FactoryLogger::new().info("f").class, "Factory");
}

#[test]
fn device_builder_needs_a_name() {
    assert!(DeviceBuilder::new().build().is_err());
    let d = DeviceBuilder::new()
        .with_name("dev".to_string())
        .with_model("m".to_string())
        .build()
        .unwrap();
    assert_eq!(d.name(), "dev");
    assert_eq!(d.model(), "m");
    assert_eq!(d.manufacturer(), "Unknown");
}

#[test]
fn reactor_topics_and_scan_reply() {
    assert_eq!(root_topic("host"), "pza/host");
    assert_eq!(decimal_string(0), "0");
    assert_eq!(decimal_string(1700000000123), "1700000000123");
    assert_eq!(decimal_string(-42), "-42");
    assert_eq!(decimal_string(i64::MIN), i64::MIN.to_string());
    assert_eq!(decimal_string(i64::MAX), i64::MAX.to_string());
    assert_eq!(scan_reply("h", 12), ("pza/h".to_string(), "12".to_string()));
    let s = ReactorSettings::new("localhost", 1883, None);
    assert_eq!(s.addr, "localhost");
    assert_eq!(s.port_mqtt, 1883);
}

#[test]
fn dispatcher_finds_handler_of_topic() {
    let mut d: MessageDispatcher<u8> = MessageDispatcher::new();
    assert!(d.handler_for("pza").is_none());
    d.register_message_attribute("pza".to_string(), 1);
    d.register_message_attribute("pza".to_string(), 2);
    assert_eq!(d.handler_for("pza"), Some(&2));
    assert!(d.handler_for("pza/x").is_none());
}

#[test]
fn subscription_topics() {
    let names = vec![(0u16, "mode".to_string()), (3u16, "current".to_string())];
    let r = runner_requests("pza/b/d/i", &names);
    assert_eq!(
        r,
        vec![
            (ID_PZA, "pza".to_string()),
            (ID_PZA_CMDS_SET, "pza/b/d/i/cmds/set".to_string()),
            (0, "pza/b/d/i/mode".to_string()),
            (3, "pza/b/d/i/current".to_string()),
        ]
    );
    let s = starter_requests("t", &names);
    assert_eq!(s[2], (0, "t/cmds/mode".to_string()));
    let m = MqttMessage::new(200, "t/cmds/set".to_string(), vec![1, 2]);
    assert_eq!(m.id(), 200);
    assert_eq!(m.topic(), "t/cmds/set");
    assert_eq!(m.payload(), &vec![1, 2]);
    assert!(ConnectionStatusMessage::new(true).connected);
}

#[test]
fn topic_text() {
    assert_eq!(split_topic("a/b//c"), vec!["a", "b", "", "c"]);
    assert_eq!(split_topic(""), vec![""]);
    let parts = split_topic("x/y/z");
    assert_eq!(join_topic(&parts, 0, 3), "x/y/z");
    assert_eq!(join_topic(&parts, 1, 3), "y/z");
    assert_eq!(join_topic(&parts, 1, 1), "");
    assert_eq!(child_topic("p", "c"), "p/c");
}

#[test]
fn json_accessors() {
    let v = JsonValue::Object(vec![
        ("n".to_string(), JsonValue::Number(JsonNumber::PosInt(5))),
        ("s".to_string(), JsonValue::String("t".to_string())),
        ("b".to_string(), JsonValue::Bool(true)),
        ("n".to_string(), JsonValue::Null),
    ]);
    assert_eq!(v.get("n").unwrap().as_u64(), Some(5));
    assert_eq!(v.get("s").unwrap().as_str().unwrap(), "t");
    assert_eq!(v.get("b").unwrap().as_bool(), Some(true));
    assert!(v.get("z").is_none());
    assert!(JsonValue::Null.get("n").is_none());
    assert_eq!(JsonValue::Number(JsonNumber::NegInt(-1)).as_u64(), None);
    let o = v.as_object().unwrap();
    assert!(object_get(o, "s").is_some());
    assert!(matches!(JsonNumber::Float("1.5".to_string()).duplicate(), JsonNumber::Float(t) if t == "1.5"));
}

#[test]
fn filters_match_topics_by_pattern() {
    let f = Filter::new(7, "^pza/[^/]+/cmds/set$").unwrap();
    assert_eq!(f.id(), 7);
    assert!(f.match_topic("pza/dev/cmds/set"));
    assert!(!f.match_topic("pza/dev/atts/info"));
    assert!(Filter::new(1, "foo(bar").is_none());
    let m = MqttMessage::from_filter(&f, "pza/dev/cmds/set".to_string(), vec![9]);
    assert_eq!(m.id(), 7);
    assert_eq!(m.payload(), &vec![9]);
}

#[test]
fn clock_and_topics_and_defaults() {
    use_clock();
    assert!(topic_is_well_formed("a/pza/h/d"));
    assert!(topic_is_well_formed("pza/h/d/x/y"));
    assert!(!topic_is_well_formed("a/pza/h"));
    assert!(!topic_is_well_formed("a/b/c/d"));
    let i = Info::default_info();
    assert_eq!(i.broker_addr, "localhost");
    assert_eq!(i.broker_port, 1883);
    assert_eq!(i.platform_name, "default_name");
    assert_eq!(i.services_retry_delay, 1);
    assert!(!i.services_enable_plbd);
    let p = RootProducer::new();
    assert_eq!(p.manufacturer(), "_");
    assert_eq!(p.model(), "_");
}

fn use_clock() {
    let now = now_millis().unwrap();
    assert!(now > 1_600_000_000_000);
    let (topic, payload) = local_scan_reply().unwrap();
    assert!(topic.starts_with("pza/"));
    assert!(payload.parse::<i64>().unwrap() >= now);
}

#[test]
fn milliseconds_from_clock_readings() {
    use_millis_from();
}

fn use_millis_from() {
    assert_eq!(millis_from(None), None);
    assert_eq!(millis_from(Some((0, 0))), Some(0));
    assert_eq!(millis_from(Some((1_700_000_000, 123_456_789))), Some(1_700_000_000_123));
    assert_eq!(millis_from(Some((u64::MAX, 0))), None);
    assert_eq!(millis_from(Some((9_000_000_000_000_000, 0))), None);
}
