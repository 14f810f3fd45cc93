use panduza_core::json::JsonNumber;
use panduza_core::meta::blc::{self, BlcAttributes, BlcRequest};
use panduza_core::meta::command::CommandRefusal;
use panduza_core::meta::meter::{self, AmmeterParams, PowermeterParams};
use panduza_core::meta::registers::{self, MetaInterface, MetaSettings, RegisterSize};
use panduza_core::meta::relay;

fn used(names: &[&str]) -> Vec<String> {
    names.iter().map(|s| s.to_string()).collect()
}

#[test]
fn blc_attribute_names_and_strings() {
    assert_eq!(BlcAttributes::Mode.as_str(), "mode");
    assert_eq!(BlcAttributes::AnalogModulation.as_str(), "analog_modulation");
    assert_eq!(BlcAttributes::Current.to_string(), "current".to_string());
    assert_eq!(
        BlcAttributes::all_attributes(),
        used(&["mode", "enable", "power", "current", "analog_modulation"])
    );
}

#[test]
fn blc_subscribes_to_used_attributes_only() {
    let names = blc::attributes_names(&used(&["current", "mode", "analog_modulation"]));
    assert_eq!(names, vec![(0u16, "mode".to_string()), (3u16, "current".to_string())]);
    let all = blc::attributes_names(&BlcAttributes::all_attributes());
    assert_eq!(all.len(), 4);
    assert!(blc::attributes_names(&Vec::new()).is_empty());
}

#[test]
fn blc_initialises_analog_modulation_first() {
    let order = blc::init_order(&used(&["power", "analog_modulation", "enable"]));
    assert_eq!(
        order,
        vec![BlcAttributes::AnalogModulation, BlcAttributes::Enable, BlcAttributes::Power]
    );
}

#[test]
fn blc_payload_requests_in_order() {
    let payload = br#"{"enable":{"value":true},"mode":{"value":"CC"},"power":{"value":12}}"#;
    let r = blc::process_payload(payload, &used(&["mode", "enable", "power"]));
    assert!(r.refusal.is_none());
    assert_eq!(r.requests.len(), 3);
    assert!(matches!(r.requests[0], BlcRequest::Enable(true)));
    assert!(matches!(&r.requests[1], BlcRequest::Mode(m) if m == "CC"));
    assert!(matches!(r.requests[2], BlcRequest::Power(JsonNumber::PosInt(12))));
}

#[test]
fn blc_ignores_unused_attributes_and_other_fields() {
    let payload = br#"{"current":{"value":1},"mode":{"min":"x","value":"CV"}}"#;
    let r = blc::process_payload(payload, &used(&["mode"]));
    assert!(r.refusal.is_none());
    assert_eq!(r.requests.len(), 1);
    assert!(matches!(&r.requests[0], BlcRequest::Mode(m) if m == "CV"));
}

#[test]
fn blc_stops_at_a_value_of_the_wrong_type() {
    let payload = br#"{"enable":{"value":true},"mode":{"value":3},"power":{"value":1}}"#;
    let r = blc::process_payload(payload, &used(&["mode", "enable", "power"]));
    assert_eq!(r.requests.len(), 1);
    assert_eq!(r.refusal, Some(CommandRefusal::ModeNotProvided));
    assert_eq!(r.refusal.unwrap().message(), "Mode value not provided");
}

#[test]
fn blc_refuses_unreadable_and_empty_payloads() {
    let r = blc::process_payload(b"{not json", &used(&["mode"]));
    assert!(r.requests.is_empty());
    assert_eq!(r.refusal, Some(CommandRefusal::UnreadablePayload));
    assert_eq!(CommandRefusal::UnreadablePayload.message(), "Unable to deserializa data");
    let r = blc::process_payload(b"[1,2]", &used(&["mode"]));
    assert_eq!(r.refusal, Some(CommandRefusal::NoData));
    let r = blc::process_payload(br#"{"enable":{"value":false},"power":5}"#, &used(&["enable"]));
    assert_eq!(r.requests.len(), 1);
    assert_eq!(r.refusal, Some(CommandRefusal::NoData));
    assert_eq!(CommandRefusal::NoData.message(), "No data provided");
}

#[test]
fn blc_refusal_messages() {
    assert_eq!(CommandRefusal::PowerNotProvided.message(), "Power value not porvided");
    assert_eq!(CommandRefusal::CurrentNotProvided.message(), "Current value not porvided");
    assert_eq!(CommandRefusal::EnableNotProvided.message(), "Enable value not provided");
    assert_eq!(
        CommandRefusal::AnalogModulationNotProvided.message(),
        "Analog modulation value not provided"
    );
    let r = blc::process_payload(br#"{"current":{"value":"a"}}"#, &used(&["current"]));
    assert_eq!(r.refusal, Some(CommandRefusal::CurrentNotProvided));
    let r = blc::process_payload(br#"{"analog_modulation":{"value":1}}"#, &used(&["analog_modulation"]));
    assert_eq!(r.refusal, Some(CommandRefusal::AnalogModulationNotProvided));
}

#[test]
fn relay_requests_and_refusals() {
    assert_eq!(relay::attributes_names(), vec![(0u16, "state".to_string())]);
    let r = relay::process_payload(br#"{"state":{"open":true}}"#);
    assert_eq!(r.open_requests, vec![true]);
    assert!(r.refusal.is_none());
    let r = relay::process_payload(br#"{"state":{"open":"yes"}}"#);
    assert!(r.open_requests.is_empty());
    assert_eq!(r.refusal, Some(CommandRefusal::StateOpenNotProvided));
    assert_eq!(r.refusal.unwrap().message(), "State open not provided");
    let r = relay::process_payload(br#"{"other":{"open":false}}"#);
    assert!(r.open_requests.is_empty());
    assert!(r.refusal.is_none());
    let r = relay::process_payload(b"nope");
    assert_eq!(r.refusal, Some(CommandRefusal::UnreadablePayload));
}

#[test]
fn meter_counts_reads() {
    assert_eq!(meter::attributes_names(), vec![(0u16, "measure".to_string())]);
    let r = meter::process_payload(br#"{"measure":{"value":0,"other":1}}"#);
    assert_eq!(r.reads, 1);
    assert!(r.refusal.is_none());
    let r = meter::process_payload(br#"{"measure":3}"#);
    assert_eq!(r.reads, 0);
    assert_eq!(r.refusal, Some(CommandRefusal::NoData));
    let a = AmmeterParams { measure_decimals: 3 };
    let p = PowermeterParams { measure_decimals: 2 };
    assert_eq!(a.measure_decimals + p.measure_decimals, 5);
}

#[test]
fn register_sizes_publish_their_bits() {
    assert_eq!(RegisterSize::_8bits.bits(), 8);
    assert_eq!(RegisterSize::_16bits.bits(), 16);
    assert_eq!(RegisterSize::_32bits.bits(), 32);
    assert_eq!(RegisterSize::_64bits.bits(), 64);
}

#[test]
fn register_map_starts_at_zero_and_publishes_json() {
    let settings = MetaSettings { base_address: 0, register_size: RegisterSize::_32bits, number_of_register: 3 };
    let m = MetaInterface::new(settings);
    assert_eq!(m.values, vec![0, 0, 0]);
    assert_eq!(m.timestamps, vec![0, 0, 0]);
    let payload = String::from_utf8(m.to_payload()).unwrap();
    assert_eq!(payload, r#"{"timestamps":[0,0,0],"values":[0,0,0]}"#);
}

#[test]
fn register_map_update_splices_values() {
    let settings = MetaSettings { base_address: 16, register_size: RegisterSize::_8bits, number_of_register: 4 };
    let mut m = MetaInterface::new(settings);
    m.update_values(1, 2, &vec![7, 9]);
    assert_eq!(m.values, vec![0, 7, 9, 0]);
    assert_eq!(m.timestamps, vec![0, 0, 0, 0]);
    m.update_values(3, 1, &vec![5, 6]);
    assert_eq!(m.values, vec![0, 7, 9, 5, 6]);
}

#[test]
fn cyclic_reads_wait_for_the_shortest_interval() {
    assert_eq!(registers::next_awake(&vec![]), 1000);
    assert_eq!(registers::next_awake(&vec![1500, 300, 700]), 300);
    assert_eq!(registers::next_awake(&vec![2000]), 1000);
    assert_eq!(registers::read_request(br#"{"cmd":"r","index":2,"size":4}"#), Some((2, 4)));
    assert_eq!(registers::read_request(br#"{"index":2}"#), None);
    assert_eq!(registers::read_request(b"x"), None);
}

#[test]
fn register_settings_payload() {
    let settings = MetaSettings { base_address: 4096, register_size: RegisterSize::_16bits, number_of_register: 8 };
    let j = settings.to_json();
    match j {
        panduza_core::json::JsonValue::Object(e) => {
            assert_eq!(e.len(), 3);
            assert_eq!(e[0].0, "base_address");
            assert!(matches!(e[0].1, panduza_core::json::JsonValue::Number(JsonNumber::PosInt(4096))));
            assert_eq!(e[1].0, "register_size");
            assert!(matches!(e[1].1, panduza_core::json::JsonValue::Number(JsonNumber::PosInt(16))));
            assert_eq!(e[2].0, "number_of_register");
            assert!(matches!(e[2].1, panduza_core::json::JsonValue::Number(JsonNumber::PosInt(8))));
        }
        _ => panic!("not an object"),
    }
}
