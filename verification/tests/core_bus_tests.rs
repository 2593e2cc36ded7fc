use osheems_common::core_bus::dispatcher::{build_message, DispatchTarget};
use osheems_common::core_bus::manager::{
    event_payload, log_payload, log_point_topic, online_event_payload, parse_bus_topic, publish_topic, telemetry_topic,
    SYSTEM_DEVICE_TOPIC,
};
use osheems_common::core_bus::runner::{bus_config, credentials_from, text_member_of, CoreBusRunner};
use osheems_common::core_bus::types::{MqttSuffix, OsheemsRole};
use osheems_common::entities::{Entity, EntityType};
use osheems_common::json::{JsonNumber, JsonValue};

fn text(s: &str) -> JsonValue {
    JsonValue::Text(s.to_string())
}

fn object(entries: Vec<(&str, JsonValue)>) -> JsonValue {
    JsonValue::Object(entries.into_iter().map(|(k, v)| (k.to_string(), v)).collect())
}

fn text_at<'a>(v: &'a JsonValue, key: &str) -> Option<&'a str> {
    v.get(key).and_then(|x| x.as_str())
}

#[test]
fn suffix_names() {
    assert_eq!(MqttSuffix::Get.to_string(), "get");
    assert_eq!(MqttSuffix::SetValue.to_string(), "set");
    assert_eq!(MqttSuffix::Evt.to_string(), "evt");
    assert_eq!(MqttSuffix::Conf.to_string(), "conf");
    assert_eq!(MqttSuffix::Logs.to_string(), "logs");
}

#[test]
fn suffix_parse_is_case_insensitive_and_accepts_log() {
    assert_eq!(MqttSuffix::try_from("GET"), Ok(MqttSuffix::Get));
    assert_eq!(MqttSuffix::try_from("Set"), Ok(MqttSuffix::SetValue));
    assert_eq!(MqttSuffix::try_from("log"), Ok(MqttSuffix::Logs));
    assert_eq!(MqttSuffix::try_from("LOGS"), Ok(MqttSuffix::Logs));
}

#[test]
fn suffix_parse_error() {
    assert_eq!(MqttSuffix::try_from("status"), Err("Unknown suffix: status".to_string()));
    assert_eq!(MqttSuffix::try_from(""), Err("Unknown suffix: ".to_string()));
}

#[test]
fn suffix_round_trip_on_every_suffix() {
    for s in [MqttSuffix::Get, MqttSuffix::SetValue, MqttSuffix::Evt, MqttSuffix::Conf, MqttSuffix::Logs] {
        assert_eq!(MqttSuffix::try_from(s.to_string().as_str()), Ok(s));
    }
}

#[test]
fn node_role_names() {
    assert_eq!(OsheemsRole::Core.to_string(), "core");
    assert_eq!(OsheemsRole::Edge.to_string(), "edge");
}

#[test]
fn topic_is_built_from_its_parts() {
    assert_eq!(publish_topic("core", "dev1", MqttSuffix::Evt, "power"), "osheems/core/dev1/evt/power");
    assert_eq!(
        publish_topic("core", "system", MqttSuffix::Logs, "gateway/info"),
        "osheems/core/system/logs/gateway/info"
    );
}

#[test]
fn topic_round_trip() {
    let t = publish_topic("edge", "meter_1", MqttSuffix::SetValue, "relay");
    let r = parse_bus_topic(&t).unwrap();
    assert_eq!(r.role, "edge");
    assert_eq!(r.device_topic, "meter_1");
    assert_eq!(r.suffix, MqttSuffix::SetValue);
}

#[test]
fn topic_with_four_parts_is_routed() {
    let r = parse_bus_topic("osheems/core/dev/CONF").unwrap();
    assert_eq!(r.role, "core");
    assert_eq!(r.device_topic, "dev");
    assert_eq!(r.suffix, MqttSuffix::Conf);
}

#[test]
fn foreign_or_malformed_topics_are_not_routed() {
    assert!(parse_bus_topic("other/core/dev/evt/x").is_none());
    assert!(parse_bus_topic("osheems/core/dev/bogus/x").is_none());
    assert!(parse_bus_topic("osheems/core/dev").is_none());
    assert!(parse_bus_topic("osheems/core/dev/evt/a/b").is_none());
    assert!(parse_bus_topic("").is_none());
}

#[test]
fn dispatch_targets() {
    assert_eq!(DispatchTarget::for_suffix(MqttSuffix::Evt), DispatchTarget::Telemetry);
    assert_eq!(DispatchTarget::for_suffix(MqttSuffix::SetValue), DispatchTarget::Driver);
    assert_eq!(DispatchTarget::for_suffix(MqttSuffix::Get), DispatchTarget::Driver);
    assert_eq!(DispatchTarget::for_suffix(MqttSuffix::Logs), DispatchTarget::Logs);
    assert_eq!(DispatchTarget::for_suffix(MqttSuffix::Conf), DispatchTarget::Entities);
}

#[test]
fn dispatch_drop_messages() {
    assert_eq!(DispatchTarget::Telemetry.drop_error("full"), "Dispatcher: Telemetry drop: full");
    assert_eq!(DispatchTarget::Driver.drop_error("closed"), "Dispatcher: Driver drop: closed");
    assert_eq!(DispatchTarget::Logs.drop_error("x"), "Dispatcher: Log drop: x");
    assert_eq!(DispatchTarget::Entities.drop_error("x"), "Dispatcher: Entity drop: x");
}

#[test]
fn message_data_of_json_payload() {
    let m = build_message("core", "dev1", b"{\"a\":1}");
    assert_eq!(m.role, "core");
    assert_eq!(m.device_id, "dev1");
    assert_eq!(m.data, "Object {\"a\": Number(1)}");
}

#[test]
fn message_data_of_text_payload() {
    let m = build_message("edge", "dev2", b"hello");
    assert_eq!(m.data, "String(\"hello\")");
}

#[test]
fn message_data_of_invalid_utf8_payload() {
    let m = build_message("edge", "dev2", &[0x61, 0xff]);
    assert_eq!(m.data, "String(\"a\u{fffd}\")");
}

#[test]
fn event_payloads() {
    let e = event_payload("gw1");
    assert_eq!(text_at(&e, "id"), Some("gw1"));
    assert_eq!(e.as_object().unwrap().len(), 1);
    let o = online_event_payload("if1");
    assert_eq!(text_at(&o, "id"), Some("if1"));
    assert_eq!(text_at(&o, "status"), Some("online"));
    assert_eq!(SYSTEM_DEVICE_TOPIC, "osheems/core/system");
}

#[test]
fn log_payload_fields() {
    let l = log_payload("gw1", "info", "gateway_manager", "done", "2024-01-01T00:00:00Z");
    assert_eq!(text_at(&l, "id"), Some("gw1"));
    assert_eq!(text_at(&l, "level"), Some("info"));
    assert_eq!(text_at(&l, "module"), Some("gateway_manager"));
    assert_eq!(text_at(&l, "msg"), Some("done"));
    assert_eq!(text_at(&l, "ts"), Some("2024-01-01T00:00:00Z"));
    assert_eq!(log_point_topic("gateway", "error"), "gateway/error");
}

#[test]
fn core_bus_settings_from_config() {
    let cfg = object(vec![
        ("broker_host", text("10.0.0.5")),
        ("broker_port", JsonValue::Number(JsonNumber::PosInt(1884))),
        ("username", text("u")),
        ("password", text("p")),
    ]);
    let s = CoreBusRunner::connection_settings("main", &cfg).unwrap();
    assert_eq!(s.client_id, "core-main");
    assert_eq!(s.host, "10.0.0.5");
    assert_eq!(s.port, 1884);
    assert_eq!(s.keep_alive_secs, 5);
    assert_eq!(s.credentials, Some(("u".to_string(), "p".to_string())));
}

#[test]
fn core_bus_settings_defaults() {
    let cfg = object(vec![("broker_host", text("localhost")), ("username", text("u"))]);
    let s = CoreBusRunner::connection_settings("n", &cfg).unwrap();
    assert_eq!(s.port, 1883);
    assert_eq!(s.credentials, None);
}

#[test]
fn core_bus_settings_port_is_truncated_to_sixteen_bits() {
    let cfg = object(vec![
        ("broker_host", text("h")),
        ("broker_port", JsonValue::Number(JsonNumber::PosInt(65536 + 1883))),
    ]);
    assert_eq!(CoreBusRunner::connection_settings("n", &cfg).unwrap().port, 1883);
}

#[test]
fn core_bus_settings_missing_host() {
    let cfg = object(vec![("broker_port", JsonValue::Number(JsonNumber::PosInt(1883)))]);
    assert_eq!(CoreBusRunner::connection_settings("n", &cfg).unwrap_err(), "CoreBus: Missing host");
    let not_text = object(vec![("broker_host", JsonValue::Bool(true))]);
    assert!(CoreBusRunner::connection_settings("n", &not_text).is_err());
}

#[test]
fn members_of_configuration() {
    let cfg = object(vec![("a", text("x")), ("b", JsonValue::Null)]);
    assert_eq!(text_member_of(&cfg, "a"), Some("x".to_string()));
    assert_eq!(text_member_of(&cfg, "b"), None);
    assert_eq!(text_member_of(&cfg, "c"), None);
    assert_eq!(credentials_from(&cfg), None);
}

fn gateway(id: &str, configuration: JsonValue) -> Entity {
    let mut e = Entity::default();
    e.id = id.to_string();
    e.entity_type = EntityType::Gateway;
    e.configuration = configuration;
    e
}

#[test]
fn bus_configuration_is_the_local_gateway() {
    let gws = vec![
        gateway("remote", object(vec![("broker_host", text("far"))])),
        gateway("mqtt_local", object(vec![("broker_host", text("near"))])),
    ];
    let c = bus_config(&gws);
    assert_eq!(text_at(&c, "broker_host"), Some("near"));
}

#[test]
fn bus_configuration_without_local_gateway_is_empty() {
    let gws = vec![gateway("remote", object(vec![("broker_host", text("far"))]))];
    assert_eq!(bus_config(&gws).as_object().unwrap().len(), 0);
    let odd = vec![gateway("mqtt_local", JsonValue::Null)];
    assert_eq!(bus_config(&odd).as_object().unwrap().len(), 0);
}

#[test]
fn telemetry_is_published_under_evt() {
    let t = telemetry_topic("core", "meter_1", "power");
    assert_eq!(t, "osheems/core/meter_1/evt/power");
    assert_eq!(parse_bus_topic(&t).unwrap().suffix, MqttSuffix::Evt);
}
