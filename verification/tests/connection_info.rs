use panduza_core::platform::connection_info::deserialize;

#[test]
fn deserialize_ok_000() {
    let input = r#"{"broker":{"addr":"192.168.1.42","port":5555},"credentials":{"pass":"xxxxxxxxxx","user":"foo"},"platform":{"name":"test1"},"services":{"enable_plbd":true,"retry_delay":53}}"#;
    let output = deserialize(input.to_string().as_str());
    assert_eq!(output.is_err(), false);
    let ci = output.unwrap();
    assert_eq!(ci.broker_addr, "192.168.1.42");
    assert_eq!(ci.broker_port, 5555);
    assert_eq!(ci.credentials_user, Some("foo".to_string()));
    assert_eq!(ci.credentials_pass, Some("xxxxxxxxxx".to_string()));
    assert_eq!(ci.platform_name, "test1");
    assert_eq!(ci.services_retry_delay, 53);
    assert_eq!(ci.services_enable_plbd, true);
}
