use osheems_common::db::bootstrap::{bootstrap_plan, BootstrapStep};
use osheems_common::db::main_db::{column_flag, entities_query, relations_query, user_entity_id};
use osheems_common::db::telemetry_db::{connection_step, is_expired_file, retention_limit, telemetry_file_name, ConnectionStep, RETENTION_DAYS};
use osheems_common::entities::EntityType;
use osheems_common::json::{JsonNumber, JsonValue};
use osheems_common::managers::driver::{assemble_driver, ResourceBundle};
use osheems_common::registry::Registry;
use osheems_common::runners::mqtt::MqttRunner;
use osheems_common::templates::{EntityTemplate, TemplateManager};
use osheems_common::managers::template::{DataPoint, TemplateIdentity, TemplatePoints};

fn text(s: &str) -> JsonValue {
    JsonValue::Text(s.to_string())
}

fn num(n: u64) -> JsonValue {
    JsonValue::Number(JsonNumber::PosInt(n))
}

fn object(entries: Vec<(&str, JsonValue)>) -> JsonValue {
    JsonValue::Object(entries.into_iter().map(|(k, v)| (k.to_string(), v)).collect())
}

fn text_at<'a>(v: &'a JsonValue, key: &str) -> Option<&'a str> {
    v.get(key).and_then(|x| x.as_str())
}

// --- bootstrap ---

#[test]
fn bootstrap_is_skipped_when_the_system_exists() {
    assert!(bootstrap_plan(true).is_empty());
}

#[test]
fn bootstrap_steps_in_order() {
    let steps = bootstrap_plan(false);
    assert_eq!(steps.len(), 9);
    match &steps[0] {
        BootstrapStep::CreateEntity(e) => {
            assert_eq!(e.id, "system");
            assert_eq!(e.entity_type, EntityType::System);
            assert_eq!(text_at(&e.attributes, "version"), Some("0.1.0"));
            assert!(e.is_system);
        },
        _ => panic!("first step creates the system entity"),
    }
    match &steps[1] {
        BootstrapStep::CreateEntity(e) => {
            assert_eq!(e.id, "net_eth0");
            assert_eq!(e.entity_type, EntityType::Interface);
            assert_eq!(text_at(&e.configuration, "name"), Some("eth0"));
        },
        _ => panic!("second step creates the network interface"),
    }
    match &steps[2] {
        BootstrapStep::CreateEntity(e) => {
            assert_eq!(e.id, "mqtt_local");
            assert_eq!(e.entity_type, EntityType::Gateway);
            assert_eq!(text_at(&e.configuration, "broker_host"), Some("192.168.5.11"));
            assert_eq!(e.configuration.get("broker_port").and_then(|v| v.as_u64()), Some(1883));
            assert_eq!(text_at(&e.configuration, "username"), Some("oshems"));
            assert_eq!(text_at(&e.attributes, "protocol"), Some("mqtt"));
        },
        _ => panic!("third step creates the local gateway"),
    }
    match &steps[3] {
        BootstrapStep::CreateRelation(r) => {
            assert_eq!((r.from_id.as_str(), r.predicate.as_str(), r.to_id.as_str()), ("system", "has_gateway", "mqtt_local"));
            assert!(matches!(r.attributes.get("is_core"), Some(JsonValue::Bool(true))));
        },
        _ => panic!("fourth step links the system to the gateway"),
    }
    match &steps[4] {
        BootstrapStep::CreateRelation(r) => {
            assert_eq!((r.from_id.as_str(), r.predicate.as_str(), r.to_id.as_str()), ("mqtt_local", "uses_interface", "net_eth0"));
            assert_eq!(r.attributes.get("priority").and_then(|v| v.as_u64()), Some(1));
            assert_eq!(text_at(&r.attributes, "connection_type"), Some("persistent"));
        },
        _ => panic!("fifth step links the gateway to the interface"),
    }
    match (&steps[5], &steps[6]) {
        (BootstrapStep::CreateUser(a), BootstrapStep::CreateUser(b)) => {
            assert_eq!((a.username.as_str(), a.role.as_str()), ("osheems", "superadmin"));
            assert_eq!((b.username.as_str(), b.role.as_str()), ("operator", "operator"));
            assert_eq!(a.password_hash, "05H33M5_hash");
            assert!(a.is_system && b.is_system);
        },
        _ => panic!("then the two system users"),
    }
    match &steps[7] {
        BootstrapStep::CreateSetting(s) => {
            assert_eq!(s.entity_id, "system");
            assert_eq!(s.key, "system.name");
            assert_eq!(s.value.as_str(), Some("My OSHEEMS Installation"));
        },
        _ => panic!("the eighth step names the installation"),
    }
    match &steps[8] {
        BootstrapStep::CreateSetting(s) => {
            assert_eq!(s.entity_id, "system");
            assert_eq!(s.key, "system.version");
            assert_eq!(s.value.as_str(), Some("0.1.0"));
            assert!(s.is_system);
        },
        _ => panic!("last step records the system version"),
    }
}

#[test]
fn bootstrap_links_only_entities_created_before() {
    let steps = bootstrap_plan(false);
    let mut created: Vec<String> = Vec::new();
    for s in &steps {
        match s {
            BootstrapStep::CreateEntity(e) => created.push(e.id.clone()),
            BootstrapStep::CreateRelation(r) => {
                assert!(created.contains(&r.from_id));
                assert!(created.contains(&r.to_id));
            },
            BootstrapStep::CreateSetting(x) => assert!(created.contains(&x.entity_id)),
            BootstrapStep::CreateUser(_) => {},
        }
    }
}

// --- main database ---

#[test]
fn user_entity_ids() {
    assert_eq!(user_entity_id("bob"), "user_bob");
}

#[test]
fn entity_queries() {
    let base = "SELECT id, entity_type, template_id, label, description, configuration, attributes, is_enabled, is_system FROM entities";
    assert_eq!(entities_query(None), (base.to_string(), Vec::<String>::new()));
    assert_eq!(
        entities_query(Some("gateway")),
        (format!("{} WHERE entity_type = ?", base), vec!["gateway".to_string()])
    );
}

#[test]
fn relation_queries() {
    let base = "SELECT from_id, predicate, to_id, attributes, is_system FROM relations WHERE 1=1";
    assert_eq!(relations_query(None, None, None), (base.to_string(), Vec::<String>::new()));
    assert_eq!(
        relations_query(Some("a"), None, Some("b")),
        (format!("{} AND from_id = ? AND to_id = ?", base), vec!["a".to_string(), "b".to_string()])
    );
    assert_eq!(
        relations_query(Some("a"), Some("has_gateway"), Some("b")),
        (
            format!("{} AND from_id = ? AND predicate = ? AND to_id = ?", base),
            vec!["a".to_string(), "has_gateway".to_string(), "b".to_string()]
        )
    );
}

#[test]
fn column_flags() {
    assert!(column_flag(Some(1), 0));
    assert!(!column_flag(Some(0), 1));
    assert!(!column_flag(Some(2), 1));
    assert!(column_flag(None, 1));
    assert!(!column_flag(None, 0));
}

// --- telemetry database ---

#[test]
fn telemetry_files() {
    assert_eq!(telemetry_file_name("2024_05"), "telemetry_2024_05.db");
}

#[test]
fn connection_steps() {
    assert_eq!(connection_step(false, "", "2024_05"), ConnectionStep::Open { cleanup_first: false });
    assert_eq!(connection_step(true, "2024_05", "2024_05"), ConnectionStep::Reuse);
    assert_eq!(connection_step(true, "2024_04", "2024_05"), ConnectionStep::Open { cleanup_first: true });
    assert_eq!(connection_step(false, "2024_04", "2024_05"), ConnectionStep::Open { cleanup_first: true });
    assert_eq!(connection_step(false, "2024_05", "2024_05"), ConnectionStep::Open { cleanup_first: false });
}

#[test]
fn expired_files() {
    assert!(is_expired_file("telemetry_2024_05.db", (2024, 6, 1)));
    assert!(is_expired_file("telemetry_2023_12.db", (2024, 1, 15)));
    assert!(!is_expired_file("telemetry_2024_06.db", (2024, 6, 1)));
    assert!(!is_expired_file("telemetry_2024_07.db", (2024, 6, 1)));
    assert!(!is_expired_file("telemetry_2024_13.db", (2030, 1, 1)));
    assert!(!is_expired_file("telemetry_bad.db", (2030, 1, 1)));
    assert!(!is_expired_file("main.db", (2030, 1, 1)));
    assert!(!is_expired_file("telemetry_2024_05.db-journal", (2030, 1, 1)));
}

#[test]
fn retention_limit_is_a_year_back() {
    assert_eq!(RETENTION_DAYS, 365);
    assert_eq!(retention_limit((2024, 6, 1)), Some((2023, 6, 2)));
    assert_eq!(retention_limit((2025, 3, 1)), Some((2024, 3, 1)));
    assert_eq!(retention_limit((2025, 1, 10)), Some((2024, 1, 11)));
    assert_eq!(retention_limit((2024, 2, 30)), None);
    let limit = retention_limit((2024, 6, 1)).unwrap();
    assert!(is_expired_file("telemetry_2023_05.db", limit));
    assert!(is_expired_file("telemetry_2023_06.db", limit));
    assert!(!is_expired_file("telemetry_2023_07.db", limit));
}

#[test]
fn bootstrap_records_the_system_version() {
    let steps = bootstrap_plan(false);
    let found = steps.iter().any(|s| match s {
        BootstrapStep::CreateSetting(x) => x.entity_id == "system" && x.key == "system.version" && x.value.as_str() == Some("0.1.0"),
        _ => false,
    });
    assert!(found);
}

// --- MQTT runner ---

#[test]
fn gateway_connection_settings() {
    let s = MqttRunner::gateway_settings("gw1", &object(vec![("host", text("h")), ("port", num(8883))])).unwrap();
    assert_eq!(s.client_id, "gw-gw1");
    assert_eq!(s.host, "h");
    assert_eq!(s.port, 8883);
    assert_eq!(s.keep_alive_secs, 5);
    assert_eq!(s.credentials, None);
    let b = MqttRunner::gateway_settings(
        "gw2",
        &object(vec![
            ("broker_host", text("b")),
            ("broker_port", num(1884)),
            ("username", text("u")),
            ("password", text("p")),
        ]),
    )
    .unwrap();
    assert_eq!(b.host, "b");
    assert_eq!(b.port, 1884);
    assert_eq!(b.credentials, Some(("u".to_string(), "p".to_string())));
    let d = MqttRunner::gateway_settings("gw3", &object(vec![("host", text("h"))])).unwrap();
    assert_eq!(d.port, 1883);
}

#[test]
fn gateway_settings_prefer_host_and_port() {
    let s = MqttRunner::gateway_settings(
        "g",
        &object(vec![("broker_host", text("b")), ("host", text("h")), ("broker_port", num(2)), ("port", num(1))]),
    )
    .unwrap();
    assert_eq!(s.host, "h");
    assert_eq!(s.port, 1);
}

#[test]
fn gateway_settings_missing_host() {
    assert_eq!(
        MqttRunner::gateway_settings("gw1", &object(vec![("port", num(1))])).unwrap_err(),
        "Gateway 'gw1': Missing host/broker_host in configuration"
    );
}

fn device_bundle(topic: Option<&str>) -> ResourceBundle {
    let mut b = ResourceBundle::virtual_bundle("dev_t");
    if let Some(t) = topic {
        b.configuration = object(vec![("device_topic", text(t))]);
    }
    b
}

#[test]
fn subscriptions_of_devices_with_a_topic() {
    let mut devices = Registry::new();
    devices.insert("d1".to_string(), device_bundle(Some("shellies/em1")));
    devices.insert("d2".to_string(), device_bundle(None));
    devices.insert("d3".to_string(), device_bundle(Some("zigbee/plug")));
    let drv = assemble_driver("gw", ResourceBundle::virtual_bundle("g"), ResourceBundle::virtual_bundle("i"), devices);
    assert_eq!(
        MqttRunner::subscriptions(&drv),
        vec![
            ("d1".to_string(), "shellies/em1/#".to_string()),
            ("d3".to_string(), "zigbee/plug/#".to_string())
        ]
    );
}

fn metered_bundle() -> ResourceBundle {
    let mut b = ResourceBundle::virtual_bundle("shelly");
    b.template = object(vec![(
        "points",
        object(vec![(
            "states",
            JsonValue::Array(vec![
                object(vec![("id", text("power")), ("unit", text("W"))]),
                object(vec![("id", text("voltage")), ("unit", text("V"))]),
            ]),
        )]),
    )]);
    b.mappings = object(vec![(
        "mqtt",
        object(vec![(
            "points",
            object(vec![
                ("power", object(vec![("label", text("Active power"))])),
                ("voltage", JsonValue::empty_object()),
                ("energy", JsonValue::empty_object()),
            ]),
        )]),
    )]);
    b.configuration = object(vec![("labels", object(vec![("voltage", text("Grid voltage"))]))]);
    b
}

#[test]
fn telemetry_of_mapped_points() {
    let b = metered_bundle();
    let metrics = object(vec![("voltage", num(230)), ("power", num(1500)), ("other", num(1))]);
    let out = MqttRunner::telemetry_points(&b, &metrics, 1700000000000);
    assert_eq!(out.len(), 2);
    assert_eq!(out[0].0, "power");
    assert_eq!(out[0].1.value.as_u64(), Some(1500));
    assert_eq!(out[0].1.unit, "W");
    assert_eq!(out[0].1.label, "Active power");
    assert_eq!(out[0].1.timestamp, 1700000000000);
    assert_eq!(out[1].0, "voltage");
    assert_eq!(out[1].1.unit, "V");
    assert_eq!(out[1].1.label, "Grid voltage");
}

#[test]
fn telemetry_unit_and_label_fallbacks() {
    let b = metered_bundle();
    let out = MqttRunner::telemetry_points(&b, &object(vec![("energy", num(7))]), 5);
    assert_eq!(out.len(), 1);
    assert_eq!(out[0].0, "energy");
    assert_eq!(out[0].1.unit, "");
    assert_eq!(out[0].1.label, "energy");
}

#[test]
fn telemetry_without_mqtt_mapping_is_empty() {
    let b = ResourceBundle::virtual_bundle("v");
    assert!(MqttRunner::telemetry_points(&b, &object(vec![("x", num(1))]), 0).is_empty());
}

#[test]
fn routed_devices() {
    assert_eq!(MqttRunner::routed_device("dev1".to_string()), Some("dev1".to_string()));
    assert_eq!(MqttRunner::routed_device("".to_string()), None);
    assert_eq!(MqttRunner::routed_device("null".to_string()), None);
}

#[test]
fn command_actions() {
    let a = MqttRunner::command_action("shellies/em1/relay/0/command".to_string(), "on".to_string()).unwrap();
    assert_eq!(a.topic, "shellies/em1/relay/0/command");
    assert_eq!(a.payload, "on");
    assert!(MqttRunner::command_action(String::new(), "on".to_string()).is_none());
}

// --- template catalogue ---

fn catalogue_template(id: &str, states: &[&str], actions: &[&str]) -> EntityTemplate {
    let p = |t: &&str| DataPoint { id: t.to_string(), trait_id: t.to_string(), unit: None, value_type: None };
    EntityTemplate {
        template_id: id.to_string(),
        version: "2".to_string(),
        entity_type: "device".to_string(),
        identity: TemplateIdentity {
            brand: "b".to_string(),
            model: "m".to_string(),
            traits: Vec::new(),
            protocols: Vec::new(),
        },
        config: Registry::new(),
        points: TemplatePoints { states: states.iter().map(p).collect(), actions: actions.iter().map(p).collect() },
        mappings: Registry::new(),
    }
}

#[test]
fn catalogue_trait_validation() {
    let m = TemplateManager::with_base_path("/opt/templates".to_string());
    assert_eq!(m.base_path(), "/opt/templates");
    assert_eq!(m.validate_traits(&catalogue_template("t1", &["voltage"], &["switch_cmd"])), Ok(()));
    assert_eq!(
        m.validate_traits(&catalogue_template("t1", &["voltage", "flow"], &[])),
        Err("Unknown trait 'flow' in states of t1".to_string())
    );
    assert_eq!(
        m.validate_traits(&catalogue_template("t2", &[], &["open_valve"])),
        Err("Unknown trait 'open_valve' in actions of t2".to_string())
    );
}

#[test]
fn catalogue_reload_keeps_the_last_template_of_an_id() {
    let mut m = TemplateManager::with_base_path("/t".to_string());
    m.replace_templates(vec![
        catalogue_template("a", &[], &[]),
        catalogue_template("b", &[], &[]),
        catalogue_template("a", &["voltage"], &[]),
    ]);
    assert_eq!(m.list_templates().len(), 2);
    assert_eq!(m.get_template("a").unwrap().points.states.len(), 1);
    assert!(m.get_template("b").is_some());
    assert!(m.get_template("c").is_none());
    m.replace_templates(vec![catalogue_template("c", &[], &[])]);
    assert!(m.get_template("a").is_none());
    assert_eq!(m.list_templates().len(), 1);
}
