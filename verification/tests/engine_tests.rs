use osheems_common::engines::execution::compile_driver;
use osheems_common::managers::driver::{assemble_driver, ResourceBundle};
use osheems_common::registry::Registry;

fn bundle(main: Option<&str>) -> ResourceBundle {
    let mut b = ResourceBundle::virtual_bundle("t");
    if let Some(src) = main {
        b.scripts.insert("main.rhai".to_string(), src.to_string());
    }
    b
}

#[test]
fn driver_scripts_compile() {
    let mut devices = Registry::new();
    devices.insert("d1".to_string(), bundle(Some("fn on_receive(m, c) { #{} }")));
    devices.insert("d2".to_string(), bundle(Some("fn on_receive(m, c) { 1 }")));
    let drv = assemble_driver("gw", bundle(Some("fn on_data_received(m, c) { \"d1\" }")), bundle(None), devices);
    let engine = rhai::Engine::new();
    let c = compile_driver(&engine, &drv).unwrap();
    assert_eq!(c.devices.len(), 2);
    assert_eq!(c.gateway.source, "fn on_data_received(m, c) { \"d1\" }");
    assert_eq!(c.devices.get("d1").map(|x| x.source.as_str()), Some("fn on_receive(m, c) { #{} }"));
    assert_eq!(c.devices.get("d2").map(|x| x.source.as_str()), Some("fn on_receive(m, c) { 1 }"));
}

#[test]
fn gateway_without_entry_script() {
    let drv = assemble_driver("gw", bundle(None), bundle(None), Registry::new());
    let engine = rhai::Engine::new();
    assert_eq!(compile_driver(&engine, &drv).err(), Some("Gateway 'gw': main.rhai not found".to_string()));
}

#[test]
fn gateway_script_that_does_not_compile() {
    let drv = assemble_driver("gw", bundle(Some("fn (")), bundle(None), Registry::new());
    let engine = rhai::Engine::new();
    let e = compile_driver(&engine, &drv).err().unwrap();
    assert!(e.starts_with("Error compiling Gateway (gw): "), "{}", e);
    assert!(e.len() > "Error compiling Gateway (gw): ".len());
}

#[test]
fn device_without_entry_script() {
    let mut devices = Registry::new();
    devices.insert("d1".to_string(), bundle(None));
    let drv = assemble_driver("gw", bundle(Some("let x = 1;")), bundle(None), devices);
    let engine = rhai::Engine::new();
    assert_eq!(compile_driver(&engine, &drv).err(), Some("Device 'd1': main.rhai not found".to_string()));
}

#[test]
fn device_script_that_does_not_compile() {
    let mut devices = Registry::new();
    devices.insert("d1".to_string(), bundle(Some("let = ;")));
    let drv = assemble_driver("gw", bundle(Some("let x = 1;")), bundle(None), devices);
    let engine = rhai::Engine::new();
    let e = compile_driver(&engine, &drv).err().unwrap();
    assert!(e.starts_with("Error compiling Device (d1): "), "{}", e);
}

use osheems_common::engines::execution::script_context;
use osheems_common::json::{JsonNumber, JsonValue};
use osheems_common::managers::driver::with_relation_attributes;

fn keys(v: &JsonValue) -> Vec<String> {
    v.as_object().unwrap().iter().map(|(k, _)| k.clone()).collect()
}

#[test]
fn script_context_shape() {
    let mut devices = Registry::new();
    let dev = with_relation_attributes(bundle(None), &JsonValue::Object(vec![(
        "slave".to_string(),
        JsonValue::Number(JsonNumber::PosInt(3)),
    )]));
    devices.insert("d1".to_string(), dev);
    let mut gw = bundle(None);
    gw.configuration = JsonValue::Object(vec![("host".to_string(), JsonValue::Text("h".to_string()))]);
    let drv = assemble_driver("gw", gw, bundle(None), devices);
    let c = script_context(&drv);
    assert_eq!(keys(&c), vec!["interface", "gateway", "devices"]);
    let g = c.get("gateway").unwrap();
    assert_eq!(keys(g), vec!["template", "mappings", "config", "entity"]);
    assert_eq!(g.get("config").and_then(|x| x.get("host")).and_then(|x| x.as_str()), Some("h"));
    let ge = g.get("entity").unwrap();
    assert_eq!(keys(ge), vec!["relation_attributes", "config"]);
    assert_eq!(ge.get("relation_attributes").and_then(|x| x.as_object()).map(|o| o.len()), Some(0));
    let d = c.get("devices").and_then(|x| x.get("d1")).unwrap();
    let rel = d.get("entity").and_then(|x| x.get("relation_attributes")).unwrap();
    assert_eq!(rel.get("slave").and_then(|x| x.as_u64()), Some(3));
    assert_eq!(c.get("devices").and_then(|x| x.as_object()).map(|o| o.len()), Some(1));
}
