use panduza_core::error::Error;
use panduza_core::json::JsonValue;
use panduza_core::logger::LogLevel;
use panduza_core::platform::boot::{
    accepts_default_creation, hunt_store, loading_step, LoadingStep, NO_CONNECTION_INFO, UNMANAGED_ERROR,
};
use panduza_core::platform::config::{
    default_file_config, get_default_config_dir, ConfigJson, ConfigManager, DeviceInfo,
    DeviceTreeManager, PlatformInfo, BrokerInfo, PlatformInner,
};
use panduza_core::platform::connection_info::{
    deserialize, parse_json_obj, serialize, ConnectionInfoError, ErrorType,
};
use panduza_core::platform::tasks::{platform_step, task_report, PlatformEvent, PlatformStep, TaskOutcome};

#[test]
fn connection_info_errors() {
    let e = deserialize(r#"{"platform":{"name":"x"}}"#).unwrap_err();
    assert_eq!(e.err_type, ErrorType::MandatoryFieldMissing);
    assert_eq!(e.message, "[broker] section must be provided");
    let e = deserialize(r#"{"broker":{"port":1}}"#).unwrap_err();
    assert_eq!(e.message, "[broker.addr] must be provided");
    let e = deserialize(r#"{"broker":{"addr":3,"port":1}}"#).unwrap_err();
    assert_eq!(e.err_type, ErrorType::ContentBadFormat);
    assert_eq!(e.message, "[broker.addr] must be a string");
    let e = deserialize(r#"{"broker":{"addr":"h"}}"#).unwrap_err();
    assert_eq!(e.message, "[broker.port] must be provided");
    let e = deserialize(r#"{"broker":{"addr":"h","port":"p"}}"#).unwrap_err();
    assert_eq!(e.message, "[broker.port] must be a number");
    let e = deserialize("[]").unwrap_err();
    assert_eq!(e.message, "Except a JSON object at file root");
    let e = deserialize("{oops").unwrap_err();
    assert_eq!(e.err_type, ErrorType::ContentBadFormat);
    assert!(parse_json_obj(&JsonValue::Null).is_err());
}

#[test]
fn connection_info_defaults() {
    let ci = deserialize(r#"{"broker":{"addr":"localhost","port":1883}}"#).unwrap();
    assert_eq!(ci.broker_addr, "localhost");
    assert_eq!(ci.broker_port, 1883);
    assert_eq!(ci.credentials_user, None);
    assert_eq!(ci.platform_name, "default_name");
    assert_eq!(ci.services_retry_delay, 1);
    assert_eq!(ci.services_enable_plbd, false);
}

#[test]
fn connection_info_serialize_then_deserialize() {
    let input = r#"{"broker":{"addr":"10.0.0.1","port":1884},"credentials":{"user":"u"},"platform":{"name":"p"},"services":{"enable_plbd":true,"retry_delay":7}}"#;
    let ci = deserialize(input).unwrap();
    let text = serialize(&ci).unwrap();
    assert_eq!(
        text,
        r#"{"broker":{"addr":"10.0.0.1","port":1884},"credentials":{"pass":null,"user":"u"},"platform":{"name":"p"},"services":{"enable_plbd":true,"retry_delay":7}}"#
    );
    let back = deserialize(&text).unwrap();
    assert_eq!(back.broker_addr, ci.broker_addr);
    assert_eq!(back.broker_port, ci.broker_port);
    assert_eq!(back.credentials_user, ci.credentials_user);
    assert_eq!(back.credentials_pass, ci.credentials_pass);
    assert_eq!(back.platform_name, ci.platform_name);
    assert_eq!(back.services_retry_delay, ci.services_retry_delay);
    assert_eq!(back.services_enable_plbd, ci.services_enable_plbd);
}

#[test]
fn config_manager_sections() {
    let mut m = ConfigManager::new();
    assert_eq!(m.get_broker_info().addr, "");
    assert_eq!(m.get_broker_info().port, 0);
    assert!(m.get_platform_info().is_none());
    m.set_config(default_file_config());
    assert_eq!(m.get_broker_info().addr, "localhost");
    assert_eq!(m.get_broker_info().port, 1883);
    assert!(m.get_credentials_info().is_none());
    assert!(m.get_services_info().is_none());
    m.set_config(ConfigJson {
        broker: BrokerInfo { addr: "b".to_string(), port: 2 },
        platform: Some(PlatformInfo { name: Some("n".to_string()) }),
        credentials: None,
        services: None,
    });
    assert_eq!(m.get_platform_info().unwrap().name, Some("n".to_string()));
    let _ = PlatformInner::new();
}

#[test]
fn config_dir_per_system() {
    assert_eq!(get_default_config_dir("linux"), Some("/etc/panduza"));
    assert_eq!(get_default_config_dir("windows"), Some("C:\\ProgramData\\Panduza"));
    assert_eq!(get_default_config_dir("macos"), None);
}

#[test]
fn device_tree_keeps_devices() {
    let mut t = DeviceTreeManager::new();
    assert!(t.get_tree().is_empty());
    t.set_tree(vec![DeviceInfo { dref: "m.x".to_string(), name: "d".to_string(), settings: None }]);
    assert_eq!(t.get_tree().len(), 1);
    assert_eq!(t.get_tree()[0].name, "d");
}

#[test]
fn task_reports() {
    let r = task_report(&TaskOutcome::Completed, "Task failed: ");
    assert_eq!(r.level, LogLevel::Warn);
    assert_eq!(r.text, "Task completed");
    assert!(!r.abort_all);
    let r = task_report(&TaskOutcome::Failed(Error::Spawn("x".to_string())), "Task failed: ");
    assert_eq!(r.level, LogLevel::Error);
    assert_eq!(r.text, "Task failed: Error when trying to spawn a task");
    assert!(r.abort_all);
    let r = task_report(&TaskOutcome::JoinFailed("cancelled".to_string()), "Task failed: ");
    assert_eq!(r.text, "Join failed: cancelled");
    assert!(!r.abort_all);
    assert_eq!(Error::Wtf.message(), "We just don't know what happened");
    assert_eq!(Error::Generic(String::new()).message(), "Error");
}

#[test]
fn main_loop_steps() {
    assert_eq!(platform_step(PlatformEvent::UserInterrupt), (PlatformStep::AbortAllMainTasks, Some("User ctrl-c, abort requested")));
    assert_eq!(platform_step(PlatformEvent::MainTaskRequested), (PlatformStep::SpawnMainTask, None));
    assert_eq!(platform_step(PlatformEvent::DeviceTaskRequested), (PlatformStep::SpawnDeviceTask, None));
    assert_eq!(platform_step(PlatformEvent::AllMainTasksEnded), (PlatformStep::Stop, Some("All tasks completed, stop the platform")));
}

#[test]
fn boot_decisions() {
    let ok: Result<u8, ConnectionInfoError> = Ok(1);
    assert_eq!(loading_step(&ok), LoadingStep::Keep);
    let missing: Result<u8, ConnectionInfoError> = Err(ConnectionInfoError { err_type: ErrorType::FileDoesNotExist, message: String::new() });
    assert_eq!(loading_step(&missing), LoadingStep::AskUser);
    let bad: Result<u8, ConnectionInfoError> = Err(ConnectionInfoError { err_type: ErrorType::ContentBadFormat, message: String::new() });
    assert_eq!(loading_step(&bad), LoadingStep::Fail);
    assert_eq!(UNMANAGED_ERROR, "unmanaged error");
    assert!(accepts_default_creation(b'y'));
    assert!(accepts_default_creation(b'Y'));
    assert!(!accepts_default_creation(b'n'));
    assert!(!accepts_default_creation(b'\n'));
    assert_eq!(NO_CONNECTION_INFO, "No connection info set ! stopping the platform...");
}

#[test]
fn hunt_keeps_found_devices_in_order() {
    let store = hunt_store(vec![
        Some(JsonValue::String("a".to_string())),
        None,
        Some(JsonValue::Bool(true)),
    ]);
    match store {
        JsonValue::Array(v) => {
            assert_eq!(v.len(), 2);
            assert!(matches!(&v[0], JsonValue::String(s) if s == "a"));
            assert!(matches!(v[1], JsonValue::Bool(true)));
        }
        _ => panic!("not an array"),
    }
    assert!(matches!(hunt_store(vec![None]), JsonValue::Array(v) if v.is_empty()));
}
