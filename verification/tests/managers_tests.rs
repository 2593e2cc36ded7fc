use osheems_common::entities::{Entity, EntityType};
use osheems_common::json::{JsonNumber, JsonValue};
use osheems_common::managers::database::{storage_dir, MAIN_DB_FILE};
use osheems_common::managers::device::plan_add_device;
use osheems_common::managers::driver::{
    assemble_driver, bundle_from_template, bundle_without_template, configuration_defaults, device_main_script, enabled_ids,
    engine_type_for, merge_configuration, template_key, with_relation_attributes, EngineType, ResourceBundle,
};
use osheems_common::managers::gateway::{check_gateway_entity, GatewayLifecycle, GatewayStates};
use osheems_common::managers::interface::{
    network_discovery_record, network_port_id, plan_interface, select_interface, uart_discovery_record,
    usb_hw_id, usb_port_id, I2cInterface, InterfaceKind, InterfacePlan, NetworkInterface, UartInterface,
};
use osheems_common::managers::template::{
    mapping_protocol, script_file, template_key as folder_key, ConfigField, DataPoint, EntityTemplate,
    TemplateDefinition, TemplateIdentity, TemplateManager, TemplatePoints,
};
use osheems_common::registry::Registry;

fn text(s: &str) -> JsonValue {
    JsonValue::Text(s.to_string())
}

fn num(n: u64) -> JsonValue {
    JsonValue::Number(JsonNumber::PosInt(n))
}

fn object(entries: Vec<(&str, JsonValue)>) -> JsonValue {
    JsonValue::Object(entries.into_iter().map(|(k, v)| (k.to_string(), v)).collect())
}

fn keys(v: &JsonValue) -> Vec<String> {
    v.as_object().unwrap().iter().map(|(k, _)| k.clone()).collect()
}

fn text_at<'a>(v: &'a JsonValue, key: &str) -> Option<&'a str> {
    v.get(key).and_then(|x| x.as_str())
}

fn entity(id: &str, t: EntityType) -> Entity {
    let mut e = Entity::default();
    e.id = id.to_string();
    e.entity_type = t;
    e
}

fn scripts(names: &[&str]) -> Registry<String> {
    let mut r = Registry::new();
    for n in names {
        r.insert(n.to_string(), format!("// {}", n));
    }
    r
}

fn field(default: JsonValue) -> ConfigField {
    ConfigField { field_type: "any".to_string(), default, description: "a field".to_string(), only_for: None }
}

fn fields(entries: Vec<(&str, JsonValue)>) -> Registry<ConfigField> {
    let mut r = Registry::new();
    for (k, v) in entries {
        r.insert(k.to_string(), field(v));
    }
    r
}

fn point(id: &str, t: &str) -> DataPoint {
    DataPoint { id: id.to_string(), trait_id: t.to_string(), unit: None, value_type: None }
}

fn template(id: &str, states: Vec<DataPoint>, actions: Vec<DataPoint>) -> EntityTemplate {
    let mut configuration = Registry::new();
    configuration.insert(
        "poll".to_string(),
        ConfigField {
            field_type: "number".to_string(),
            default: num(5),
            description: "Polling period".to_string(),
            only_for: None,
        },
    );
    EntityTemplate {
        definition: TemplateDefinition {
            template_id: id.to_string(),
            version: "1.0".to_string(),
            entity_type: "device".to_string(),
            identity: TemplateIdentity {
                brand: "Shelly".to_string(),
                model: "Pro 3EM".to_string(),
                traits: vec!["voltage".to_string()],
                protocols: vec!["mqtt".to_string()],
            },
            configuration,
            points: TemplatePoints { states, actions },
        },
        mappings: Registry::new(),
        scripts: scripts(&["main.rhai"]),
    }
}

// --- database ---

#[test]
fn storage_directory() {
    assert_eq!(storage_dir(Some("/var/snap/osheems/common".to_string())), "/var/snap/osheems/common");
    assert_eq!(storage_dir(None), "database");
    assert_eq!(MAIN_DB_FILE, "main.db");
}

// --- driver ---

#[test]
fn engine_follows_the_scripts() {
    assert_eq!(engine_type_for(&scripts(&["main.rhai"])), EngineType::Rhai);
    assert_eq!(engine_type_for(&scripts(&["main.rhai", "helper.js"])), EngineType::JavaScript);
    assert_eq!(engine_type_for(&scripts(&[])), EngineType::Rhai);
    assert_eq!(engine_type_for(&scripts(&["js"])), EngineType::Rhai);
}

#[test]
fn merge_overrides_defaults() {
    let d = object(vec![("a", num(1)), ("b", num(2))]);
    let o = object(vec![("b", num(3)), ("c", num(4))]);
    let m = merge_configuration(d, &o);
    assert_eq!(keys(&m), vec!["a", "b", "c"]);
    assert_eq!(m.get("a").and_then(|v| v.as_u64()), Some(1));
    assert_eq!(m.get("b").and_then(|v| v.as_u64()), Some(3));
    assert_eq!(m.get("c").and_then(|v| v.as_u64()), Some(4));
}

#[test]
fn merge_with_non_object_keeps_defaults() {
    let d = object(vec![("a", num(1))]);
    let m = merge_configuration(d, &text("x"));
    assert_eq!(keys(&m), vec!["a"]);
    let m2 = merge_configuration(JsonValue::Null, &object(vec![("a", num(1))]));
    assert!(matches!(m2, JsonValue::Null));
}

#[test]
fn template_key_of_entity() {
    let mut e = entity("d1", EntityType::Device);
    assert_eq!(template_key(&e), "default");
    e.template_id = Some("shelly/pro3em".to_string());
    assert_eq!(template_key(&e), "shelly/pro3em");
}

#[test]
fn bundle_from_a_template() {
    let mut e = entity("d1", EntityType::Device);
    e.configuration = object(vec![("poll", num(10))]);
    let b = bundle_from_template(
        "shelly",
        object(vec![("template_id", text("shelly"))]),
        &fields(vec![("poll", num(5)), ("host", text("x"))]),
        scripts(&["main.rhai", "ui.js"]),
        object(vec![("mqtt", JsonValue::Null)]),
        &e,
    );
    assert_eq!(b.template_id, "shelly");
    assert_eq!(b.engine_type, EngineType::JavaScript);
    assert_eq!(b.scripts.len(), 2);
    assert_eq!(b.configuration.get("poll").and_then(|v| v.as_u64()), Some(10));
    assert_eq!(text_at(&b.configuration, "host"), Some("x"));
    assert!(b.mappings.get("mqtt").is_some());
    assert_eq!(text_at(&b.template, "template_id"), Some("shelly"));
}

#[test]
fn defaults_are_the_fields_default_values() {
    let d = configuration_defaults(&fields(vec![("poll", num(5)), ("host", text("x")), ("on", JsonValue::Bool(true))]));
    assert_eq!(keys(&d), vec!["poll", "host", "on"]);
    assert_eq!(d.get("poll").and_then(|v| v.as_u64()), Some(5));
    assert_eq!(text_at(&d, "host"), Some("x"));
    assert!(matches!(d.get("on"), Some(JsonValue::Bool(true))));
    assert_eq!(configuration_defaults(&Registry::new()).as_object().map(|o| o.len()), Some(0));
}

#[test]
fn bundle_configuration_lookup() {
    let mut e = entity("d1", EntityType::Device);
    e.configuration = object(vec![("host", text("override")), ("extra", num(1))]);
    let b = bundle_from_template("t", JsonValue::empty_object(), &fields(vec![("host", text("h")), ("port", num(80))]), Registry::new(), JsonValue::empty_object(), &e);
    assert_eq!(text_at(&b.configuration, "host"), Some("override"));
    assert_eq!(b.configuration.get("port").and_then(|v| v.as_u64()), Some(80));
    assert_eq!(b.configuration.get("extra").and_then(|v| v.as_u64()), Some(1));
    assert!(b.configuration.get("missing").is_none());
}

#[test]
fn bundle_of_a_missing_template() {
    let mut e = entity("d1", EntityType::Device);
    e.configuration = object(vec![("k", text("v"))]);
    let b = bundle_without_template("ghost", &e);
    assert_eq!(b.template_id, "ghost");
    assert_eq!(b.engine_type, EngineType::Rhai);
    assert_eq!(b.scripts.len(), 0);
    assert_eq!(text_at(&b.configuration, "k"), Some("v"));
    assert_eq!(b.template.as_object().map(|o| o.len()), Some(0));
    let v = ResourceBundle::virtual_bundle("virt");
    assert_eq!(v.template_id, "virt");
    assert_eq!(v.configuration.as_object().map(|o| o.len()), Some(0));
    assert!(v.main_script().is_none());
}

#[test]
fn relation_attributes_join_the_configuration() {
    let b = ResourceBundle::virtual_bundle("v");
    let b = with_relation_attributes(b, &object(vec![("slave_id", num(3))]));
    let ra = b.configuration.get("relation_attributes").unwrap();
    assert_eq!(ra.get("slave_id").and_then(|v| v.as_u64()), Some(3));
}

#[test]
fn driver_assembly_and_scripts() {
    let e = entity("gw", EntityType::Gateway);
    let gw = bundle_from_template("mqtt", JsonValue::empty_object(), &Registry::new(), scripts(&["main.rhai"]), JsonValue::empty_object(), &e);
    let iface = ResourceBundle::virtual_bundle("eth0");
    let mut devices = Registry::new();
    devices.insert("dev1".to_string(), ResourceBundle::virtual_bundle("dev_t"));
    let d = assemble_driver("gw", gw, iface, devices);
    assert_eq!(d.gateway_id, "gw");
    assert_eq!(d.main_engine, EngineType::Rhai);
    assert_eq!(d.entity.template_id, "mqtt");
    assert_eq!(d.gateway.template_id, "mqtt");
    assert_eq!(d.interface.template_id, "eth0");
    assert_eq!(d.devices_resources.len(), 1);
    assert_eq!(d.gateway_main_script().unwrap(), "// main.rhai");
    let dev = d.devices_resources.get("dev1").unwrap();
    assert_eq!(device_main_script("dev1", dev), Err("Device 'dev1': main.rhai not found".to_string()));
}

#[test]
fn gateway_without_main_script() {
    let gw = ResourceBundle::virtual_bundle("none");
    let d = assemble_driver("gw9", gw, ResourceBundle::virtual_bundle("i"), Registry::new());
    assert_eq!(d.gateway_main_script(), Err("Gateway 'gw9': main.rhai not found".to_string()));
}

#[test]
fn enabled_entities_in_order() {
    let mut a = entity("a", EntityType::Gateway);
    let mut b = entity("b", EntityType::Gateway);
    let c = entity("c", EntityType::Gateway);
    a.is_enabled = true;
    b.is_enabled = false;
    let v = vec![a, b, c];
    assert_eq!(enabled_ids(&v), vec!["a", "c"]);
    assert!(enabled_ids(&Vec::new()).is_empty());
}

// --- gateway ---

#[test]
fn gateway_entity_check() {
    assert_eq!(check_gateway_entity(&entity("g", EntityType::Gateway)), Ok(()));
    assert_eq!(
        check_gateway_entity(&entity("d", EntityType::Device)),
        Err("Type mismatch: expected Gateway".to_string())
    );
}

#[test]
fn gateway_lifecycle_texts() {
    assert_eq!(GatewayLifecycle::Created.point_topic(), "gateway/created");
    assert_eq!(GatewayLifecycle::Updated.point_topic(), "gateway/updated");
    assert_eq!(GatewayLifecycle::Deleted.point_topic(), "gateway/deleted");
    assert_eq!(GatewayLifecycle::Created.message(), "Gateway successfully created in database");
    assert_eq!(GatewayLifecycle::Updated.message(), "Gateway record updated in database");
    assert_eq!(GatewayLifecycle::Deleted.message(), "Gateway successfully removed from database");
}

#[test]
fn gateway_state_read_after_write() {
    let mut s = GatewayStates::new();
    assert_eq!(text_at(&s.get_state("gw1"), "status"), Some("unknown"));
    s.update_state("gw1".to_string(), object(vec![("status", text("online"))]));
    s.update_state("gw2".to_string(), object(vec![("status", text("offline"))]));
    assert_eq!(text_at(&s.get_state("gw1"), "status"), Some("online"));
    s.update_state("gw1".to_string(), object(vec![("status", text("error"))]));
    assert_eq!(text_at(&s.get_state("gw1"), "status"), Some("error"));
    assert_eq!(text_at(&s.get_state("gw2"), "status"), Some("offline"));
}

#[test]
fn gateway_state_after_remove() {
    let mut s = GatewayStates::new();
    s.update_state("gw1".to_string(), object(vec![("status", text("online"))]));
    s.update_state("gw2".to_string(), object(vec![("status", text("online"))]));
    s.remove_state("gw1");
    assert_eq!(text_at(&s.get_state("gw1"), "status"), Some("unknown"));
    assert_eq!(text_at(&s.get_state("gw2"), "status"), Some("online"));
    s.remove_state("absent");
    assert_eq!(text_at(&s.get_state("gw2"), "status"), Some("online"));
}

// --- interface ---

#[test]
fn uart_from_config() {
    let u = UartInterface::from_config(&object(vec![("path", text("/dev/ttyUSB0")), ("baud_rate", num(9600))])).unwrap();
    assert_eq!(u.path, "/dev/ttyUSB0");
    assert_eq!(u.baud_rate, 9600);
    assert!(UartInterface::from_config(&object(vec![("path", text("/dev/ttyUSB0"))])).is_none());
    assert!(UartInterface::from_config(&object(vec![("path", num(1)), ("baud_rate", num(9600))])).is_none());
}

#[test]
fn network_from_config() {
    let n = NetworkInterface::from_config(&object(vec![("host", text("10.0.0.2")), ("port", num(502))])).unwrap();
    assert_eq!(n.address, "10.0.0.2:502");
    assert!(!n.is_udp);
    let u = NetworkInterface::from_config(&object(vec![
        ("host", text("h")),
        ("port", num(9)),
        ("protocol", text("UDP")),
    ]))
    .unwrap();
    assert_eq!(u.address, "h:9");
    assert!(u.is_udp);
    assert!(NetworkInterface::from_config(&object(vec![("host", text("h"))])).is_none());
}

#[test]
fn i2c_from_config() {
    let i = I2cInterface::from_config(&object(vec![("path", text("/dev/i2c-1")), ("address", num(0x48))])).unwrap();
    assert_eq!(i.path, "/dev/i2c-1");
    assert_eq!(i.address, 0x48);
    assert!(I2cInterface::from_config(&object(vec![("address", num(0x48))])).is_none());
}

#[test]
fn interface_selection_by_driver() {
    let u = select_interface(&object(vec![("driver", text("uart")), ("path", text("/dev/x")), ("baud_rate", num(115200))]));
    assert!(matches!(u, Ok(InterfaceKind::Uart(ref x)) if x.baud_rate == 115200));
    let n = select_interface(&object(vec![("driver", text("network")), ("host", text("h")), ("port", num(1))]));
    assert!(matches!(n, Ok(InterfaceKind::Network(ref x)) if x.address == "h:1"));
    let i = select_interface(&object(vec![("driver", text("i2c")), ("path", text("/dev/i2c-0")), ("address", num(1))]));
    assert!(matches!(i, Ok(InterfaceKind::I2c(ref x)) if x.address == 1));
}

#[test]
fn interface_selection_errors() {
    assert_eq!(select_interface(&object(vec![("driver", text("uart"))])).unwrap_err(), "Invalid UART config");
    assert_eq!(select_interface(&object(vec![("driver", text("network"))])).unwrap_err(), "Invalid Network config");
    assert_eq!(select_interface(&object(vec![("driver", text("i2c"))])).unwrap_err(), "Invalid I2C config");
    assert_eq!(select_interface(&object(vec![("driver", text("can"))])).unwrap_err(), "Unknown driver: can");
    assert_eq!(select_interface(&JsonValue::empty_object()).unwrap_err(), "Unknown driver: ");
}

#[test]
fn usb_identifiers() {
    let hw = usb_hw_id(0x1a86, 0x7523, None);
    assert_eq!(hw, "1a86:7523:no_serial");
    assert_eq!(usb_hw_id(0x0403, 0x6001, Some("A50285BI")), "0403:6001:A50285BI");
    assert_eq!(usb_port_id(&hw), "usb_1a86_7523_no_serial");
}

#[test]
fn network_identifiers() {
    assert_eq!(network_port_id("eth0"), Some("net_eth0".to_string()));
    assert_eq!(network_port_id("wlan0"), Some("net_wlan0".to_string()));
    assert_eq!(network_port_id("lo"), None);
    assert_eq!(network_port_id("veth12ab"), None);
    assert_eq!(network_port_id("br-1234"), None);
    assert_eq!(network_port_id("docker0"), None);
}

#[test]
fn discovery_records() {
    let u = uart_discovery_record("usb_1a86_7523_no_serial", "1a86:7523:no_serial", "/dev/ttyUSB0");
    assert_eq!(u.id, "usb_1a86_7523_no_serial");
    assert_eq!(u.entity_type, EntityType::Interface);
    assert_eq!(u.label.as_deref(), Some("USB Device (/dev/ttyUSB0)"));
    assert_eq!(u.description.as_deref(), Some("Plug'N'Play hardware interface"));
    assert_eq!(u.configuration.get("baud_rate").and_then(|v| v.as_u64()), Some(9600));
    assert_eq!(text_at(&u.attributes, "driver"), Some("uart"));
    assert_eq!(text_at(&u.attributes, "hw_id"), Some("1a86:7523:no_serial"));
    assert_eq!(text_at(&u.attributes, "original_path"), Some("/dev/ttyUSB0"));
    assert!(!u.is_system);
    let n = network_discovery_record("net_eth0", "eth0");
    assert_eq!(n.label.as_deref(), Some("Network Interface: eth0"));
    assert_eq!(n.description.as_deref(), Some("Automatically detected network card"));
    assert_eq!(text_at(&n.attributes, "interface_name"), Some("eth0"));
    assert_eq!(text_at(&n.attributes, "driver"), Some("network"));
    assert!(n.is_system);
}

fn interface_entity(driver: &str, enabled: bool) -> Entity {
    let mut e = entity("if1", EntityType::Interface);
    e.attributes = object(vec![("driver", text(driver))]);
    e.configuration = object(vec![("baud_rate", num(9600))]);
    e.is_enabled = enabled;
    e
}

#[test]
fn interface_plans() {
    assert!(matches!(plan_interface(&interface_entity("uart", false), Some("/dev/x")), InterfacePlan::Disabled));
    assert!(matches!(plan_interface(&interface_entity("uart", true), None), InterfacePlan::Missing));
    match plan_interface(&interface_entity("uart", true), Some("/dev/ttyUSB1")) {
        InterfacePlan::Spawn(c) => {
            assert_eq!(text_at(&c, "driver"), Some("uart"));
            assert_eq!(text_at(&c, "path"), Some("/dev/ttyUSB1"));
            assert_eq!(c.get("baud_rate").and_then(|v| v.as_u64()), Some(9600));
        },
        _ => panic!("expected a spawn"),
    }
    match plan_interface(&interface_entity("network", true), Some("eth1")) {
        InterfacePlan::Spawn(c) => {
            assert_eq!(text_at(&c, "interface_name"), Some("eth1"));
            assert!(c.get("path").is_none());
        },
        _ => panic!("expected a spawn"),
    }
    match plan_interface(&interface_entity("i2c", true), Some("/dev/i2c-1")) {
        InterfacePlan::Spawn(c) => {
            assert_eq!(text_at(&c, "driver"), Some("i2c"));
            assert!(c.get("path").is_none());
        },
        _ => panic!("expected a spawn"),
    }
}

// --- device ---

#[test]
fn add_device_records() {
    let t = template("shelly", vec![], vec![]);
    let (e, l) = plan_add_device("dev1", "shelly", "gw1", "Main Meter", object(vec![("slave", num(2))]), Some(&t)).unwrap();
    assert_eq!(e.id, "dev1");
    assert_eq!(e.entity_type, EntityType::Device);
    assert_eq!(e.template_id.as_deref(), Some("shelly"));
    assert_eq!(e.label.as_deref(), Some("Main Meter"));
    assert_eq!(e.description.as_deref(), Some("Device Main Meter based on Pro 3EM"));
    assert!(!e.is_system);
    assert_eq!(l.from_id, "dev1");
    assert_eq!(l.predicate, "connected_to");
    assert_eq!(l.to_id, "gw1");
    assert_eq!(l.attributes.get("slave").and_then(|v| v.as_u64()), Some(2));
    assert!(!l.is_system);
}

#[test]
fn add_device_without_template() {
    let r = plan_add_device("dev1", "nope", "gw1", "x", JsonValue::Null, None);
    assert_eq!(r.unwrap_err(), "Template 'nope' not found");
}

// --- templates ---

#[test]
fn template_folder_keys() {
    assert_eq!(folder_key("/opt/templates/shelly/pro3em", "/opt/templates"), "shelly/pro3em");
    assert_eq!(folder_key("/opt/templates/shelly/pro3em", "/opt/templates/"), "shelly/pro3em");
    assert_eq!(folder_key("/opt/templates", "/opt/templates"), "default");
    assert_eq!(folder_key("/elsewhere/x", "/opt/templates"), "default");
    assert_eq!(folder_key("/opt/templatesX/a", "/opt/templates"), "default");
}

#[test]
fn template_files() {
    assert_eq!(mapping_protocol("mqtt.json"), Some("mqtt".to_string()));
    assert_eq!(mapping_protocol("modbus.yaml"), None);
    assert_eq!(mapping_protocol("json"), None);
    assert_eq!(script_file("main.rhai"), Some("main.rhai".to_string()));
    assert_eq!(script_file("ui.js"), Some("ui.js".to_string()));
    assert_eq!(script_file("notes.txt"), None);
    assert_eq!(script_file("rhai"), None);
}

#[test]
fn template_trait_validation() {
    let m = TemplateManager::with_official_traits();
    assert_eq!(m.validate_traits(&template("ok", vec![point("v", "voltage")], vec![point("s", "switch_cmd")])), Ok(()));
    assert_eq!(
        m.validate_traits(&template("bad", vec![point("v", "voltage"), point("h", "humidity")], vec![])),
        Err("Unknown trait 'humidity' in states for template at \"bad\"".to_string())
    );
    assert_eq!(
        m.validate_traits(&template("bad2", vec![], vec![point("x", "valve_cmd")])),
        Err("Unknown trait 'valve_cmd' in actions for template at \"bad2\"".to_string())
    );
    assert_eq!(
        m.validate_traits(&template("both", vec![point("a", "foo")], vec![point("b", "bar")])),
        Err("Unknown trait 'foo' in states for template at \"both\"".to_string())
    );
}

#[test]
fn template_registry() {
    let mut m = TemplateManager::with_official_traits();
    assert_eq!(m.count(), 0);
    m.register("shelly/pro3em".to_string(), template("a", vec![], vec![]));
    m.register("victron/mppt".to_string(), template("b", vec![], vec![]));
    m.register("shelly/pro3em".to_string(), template("c", vec![], vec![]));
    assert_eq!(m.count(), 2);
    assert_eq!(m.get_template("shelly/pro3em").unwrap().definition.template_id, "c");
    assert!(m.get_template("nope").is_none());
    let mut ids: Vec<String> = m.list_templates().iter().map(|t| t.definition.template_id.clone()).collect();
    ids.sort();
    assert_eq!(ids, vec!["b", "c"]);
}

#[test]
fn template_error_quotes_the_identifier() {
    let m = TemplateManager::with_official_traits();
    assert_eq!(
        m.validate_traits(&template("say \"hi\"\n", vec![point("x", "foo")], vec![])),
        Err("Unknown trait 'foo' in states for template at \"say \\\"hi\\\"\\n\"".to_string())
    );
}
