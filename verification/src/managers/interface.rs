//! Hardware interfaces: the identifiers of discovered ports, the records created for them,
//! the run-time configuration of enabled interfaces, and the interface a configuration asks for.
use vstd::prelude::*;
use crate::core_bus::runner::{text_member, text_member_of};
use crate::db::main_db::{EntityRecord, EntityRecordView};
use crate::entities::{Entity, EntityType};
use crate::json::{JsonNumber, JsonValue, JsonView, entries_view};
use crate::runners::mqtt::u64_member;
use crate::text::{
    concat2, concat3, decimal, has_prefix, hex4, hex4_string, lowercase_of, replace_all, replace_char,
    starts_with, str_eq, to_lowercase, to_string_of, u64_to_decimal,
};

verus! {

/// A serial port: its device path and speed.
#[derive(Debug, Clone)]
pub struct UartInterface {
    pub path: String,
    pub baud_rate: u32,
}

/// A network endpoint: `host:port`, over UDP or TCP.
#[derive(Debug, Clone)]
pub struct NetworkInterface {
    pub address: String,
    pub is_udp: bool,
}

/// An I2C device: its bus path and address.
#[derive(Debug, Clone)]
pub struct I2cInterface {
    pub path: String,
    pub address: u16,
}

/// The interface a configuration asks for.
#[derive(Debug, Clone)]
pub enum InterfaceKind {
    Uart(UartInterface),
    Network(NetworkInterface),
    I2c(I2cInterface),
}

/// The serial port of a configuration `{"path", "baud_rate"}`; the speed is cut to 32 bits.
pub open spec fn uart_of(config: JsonView) -> Option<(Seq<char>, u32)> {
    match (text_member(config, "path"@), u64_member(config, "baud_rate"@)) {
        (Some(p), Some(b)) => Some((p, b as u32)),
        _ => None,
    }
}

/// The endpoint of a configuration `{"host", "port", "protocol"}`: `host:port`, and whether
/// the protocol (TCP when absent) is UDP, whatever its letter case.
pub open spec fn network_of(config: JsonView) -> Option<(Seq<char>, bool)> {
    match (text_member(config, "host"@), u64_member(config, "port"@)) {
        (Some(h), Some(p)) => {
            let proto = match text_member(config, "protocol"@) {
                Some(t) => t,
                None => "tcp"@,
            };
            Some((h + ":"@ + decimal(p as nat), lowercase_of(proto) == "udp"@))
        },
        _ => None,
    }
}

/// The I2C device of a configuration `{"path", "address"}`; the address is cut to 16 bits.
pub open spec fn i2c_of(config: JsonView) -> Option<(Seq<char>, u16)> {
    match (text_member(config, "path"@), u64_member(config, "address"@)) {
        (Some(p), Some(a)) => Some((p, a as u16)),
        _ => None,
    }
}

impl UartInterface {
    pub fn from_config(config: &JsonValue) -> (r: Option<Self>)
        ensures
            match r {
                Some(u) => uart_of(config@) == Some((u.path@, u.baud_rate)),
                None => uart_of(config@) is None,
            },
    {
        let path = text_member_of(config, "path")?;
        let baud = match config.get("baud_rate") {
            Some(v) => v.as_u64(),
            None => None,
        }?;
        Some(UartInterface { path, baud_rate: baud as u32 })
    }
}

impl NetworkInterface {
    pub fn from_config(config: &JsonValue) -> (r: Option<Self>)
        ensures
            match r {
                Some(n) => network_of(config@) == Some((n.address@, n.is_udp)),
                None => network_of(config@) is None,
            },
    {
        let host = text_member_of(config, "host")?;
        let port = match config.get("port") {
            Some(v) => v.as_u64(),
            None => None,
        }?;
        let proto = match text_member_of(config, "protocol") {
            Some(t) => t,
            None => to_string_of("tcp"),
        };
        let digits = u64_to_decimal(port);
        let address = concat3(host.as_str(), ":", digits.as_str());
        let lower = to_lowercase(proto.as_str());
        let is_udp = str_eq(lower.as_str(), "udp");
        Some(NetworkInterface { address, is_udp })
    }
}

impl I2cInterface {
    pub fn from_config(config: &JsonValue) -> (r: Option<Self>)
        ensures
            match r {
                Some(i) => i2c_of(config@) == Some((i.path@, i.address)),
                None => i2c_of(config@) is None,
            },
    {
        let path = text_member_of(config, "path")?;
        let address = match config.get("address") {
            Some(v) => v.as_u64(),
            None => None,
        }?;
        Some(I2cInterface { path, address: address as u16 })
    }
}

/// The driver a run-time configuration names, or empty.
pub open spec fn driver_name(config: JsonView) -> Seq<char> {
    match text_member(config, "driver"@) {
        Some(d) => d,
        None => Seq::empty(),
    }
}

/// Which interface a run-time configuration asks for, or why none can be made.
pub open spec fn select_interface_spec(config: JsonView) -> Result<InterfaceChoice, Seq<char>> {
    let d = driver_name(config);
    if d == "uart"@ {
        match uart_of(config) {
            Some((p, b)) => Ok(InterfaceChoice::Uart(p, b)),
            None => Err("Invalid UART config"@),
        }
    } else if d == "network"@ {
        match network_of(config) {
            Some((a, u)) => Ok(InterfaceChoice::Network(a, u)),
            None => Err("Invalid Network config"@),
        }
    } else if d == "i2c"@ {
        match i2c_of(config) {
            Some((p, a)) => Ok(InterfaceChoice::I2c(p, a)),
            None => Err("Invalid I2C config"@),
        }
    } else {
        Err("Unknown driver: "@ + d)
    }
}

/// The model of an interface choice.
pub enum InterfaceChoice {
    Uart(Seq<char>, u32),
    Network(Seq<char>, bool),
    I2c(Seq<char>, u16),
}

impl View for InterfaceKind {
    type V = InterfaceChoice;

    open spec fn view(&self) -> InterfaceChoice {
        match self {
            InterfaceKind::Uart(u) => InterfaceChoice::Uart(u.path@, u.baud_rate),
            InterfaceKind::Network(n) => InterfaceChoice::Network(n.address@, n.is_udp),
            InterfaceKind::I2c(i) => InterfaceChoice::I2c(i.path@, i.address),
        }
    }
}

/// The interface a run-time configuration asks for.
pub fn select_interface(config: &JsonValue) -> (r: Result<InterfaceKind, String>)
    ensures
        match r {
            Ok(k) => select_interface_spec(config@) == Ok::<InterfaceChoice, Seq<char>>(k@),
            Err(e) => select_interface_spec(config@) == Err::<InterfaceChoice, Seq<char>>(e@),
        },
{
    let driver = match text_member_of(config, "driver") {
        Some(d) => d,
        None => String::new(),
    };
    let d = driver.as_str();
    if str_eq(d, "uart") {
        match UartInterface::from_config(config) {
            Some(u) => Ok(InterfaceKind::Uart(u)),
            None => Err(to_string_of("Invalid UART config")),
        }
    } else if str_eq(d, "network") {
        match NetworkInterface::from_config(config) {
            Some(n) => Ok(InterfaceKind::Network(n)),
            None => Err(to_string_of("Invalid Network config")),
        }
    } else if str_eq(d, "i2c") {
        match I2cInterface::from_config(config) {
            Some(i) => Ok(InterfaceKind::I2c(i)),
            None => Err(to_string_of("Invalid I2C config")),
        }
    } else {
        Err(concat2("Unknown driver: ", d))
    }
}

/// The hardware identifier of a USB serial port: `{vid:04x}:{pid:04x}:{serial}`.
pub open spec fn usb_hw_id_spec(vid: u16, pid: u16, serial: Option<Seq<char>>) -> Seq<char> {
    hex4(vid) + ":"@ + hex4(pid) + ":"@ + match serial {
        Some(s) => s,
        None => "no_serial"@,
    }
}

pub fn usb_hw_id(vid: u16, pid: u16, serial: Option<&str>) -> (r: String)
    ensures
        r@ == usb_hw_id_spec(vid, pid, match serial {
            Some(s) => Some(s@),
            None => None,
        }),
{
    let mut s = hex4_string(vid);
    s.append(":");
    let p = hex4_string(pid);
    s.append(p.as_str());
    s.append(":");
    match serial {
        Some(t) => s.append(t),
        None => s.append("no_serial"),
    }
    s
}

/// The entity identifier of a USB serial port: `usb_` and its hardware identifier with
/// every `:` written `_`.
pub open spec fn usb_port_id_spec(hw_id: Seq<char>) -> Seq<char> {
    "usb_"@ + replace_all(hw_id, ':', '_')
}

pub fn usb_port_id(hw_id: &str) -> (r: String)
    ensures
        r@ == usb_port_id_spec(hw_id@),
{
    let t = replace_char(hw_id, ':', '_');
    concat2("usb_", t.as_str())
}

/// Network interfaces that are not managed: loopback, virtual Ethernet, bridges, Docker.
pub open spec fn network_ignored(name: Seq<char>) -> bool {
    has_prefix(name, "lo"@) || has_prefix(name, "veth"@) || has_prefix(name, "br-"@) || has_prefix(name, "docker"@)
}

/// The entity identifier of a network interface, `net_{name}`; none for unmanaged ones.
pub fn network_port_id(name: &str) -> (r: Option<String>)
    ensures
        match r {
            Some(id) => !network_ignored(name@) && id@ == "net_"@ + name@,
            None => network_ignored(name@),
        },
{
    if starts_with(name, "lo") || starts_with(name, "veth") || starts_with(name, "br-") || starts_with(name, "docker") {
        None
    } else {
        Some(concat2("net_", name))
    }
}

/// The record created for a newly discovered USB serial port.
pub open spec fn uart_record_spec(port_id: Seq<char>, hw_id: Seq<char>, port_name: Seq<char>) -> EntityRecordView {
    EntityRecordView {
        id: port_id,
        entity_type: EntityType::Interface,
        template_id: None,
        label: Some("USB Device ("@ + port_name + ")"@),
        description: Some("Plug'N'Play hardware interface"@),
        configuration: JsonView::Object(seq![("baud_rate"@, JsonView::Number(JsonNumber::PosInt(9600)))]),
        attributes: JsonView::Object(
            seq![
                ("driver"@, JsonView::Text("uart"@)),
                ("hw_id"@, JsonView::Text(hw_id)),
                ("original_path"@, JsonView::Text(port_name)),
            ],
        ),
        is_system: false,
    }
}

pub fn uart_discovery_record(port_id: &str, hw_id: &str, port_name: &str) -> (r: EntityRecord)
    ensures
        r@ == uart_record_spec(port_id@, hw_id@, port_name@),
{
    let c = vec![(to_string_of("baud_rate"), JsonValue::Number(JsonNumber::PosInt(9600)))];
    assert(entries_view(c@) =~= seq![("baud_rate"@, JsonView::Number(JsonNumber::PosInt(9600)))]);
    let a = vec![
        (to_string_of("driver"), JsonValue::text("uart")),
        (to_string_of("hw_id"), JsonValue::text(hw_id)),
        (to_string_of("original_path"), JsonValue::text(port_name)),
    ];
    assert(entries_view(a@) =~= uart_record_spec(port_id@, hw_id@, port_name@).attributes->Object_0);
    EntityRecord {
        id: to_string_of(port_id),
        entity_type: EntityType::Interface,
        template_id: None,
        label: Some(concat3("USB Device (", port_name, ")")),
        description: Some(to_string_of("Plug'N'Play hardware interface")),
        configuration: JsonValue::Object(c),
        attributes: JsonValue::Object(a),
        is_system: false,
    }
}

/// The record created for a newly discovered network interface.
pub open spec fn network_record_spec(port_id: Seq<char>, name: Seq<char>) -> EntityRecordView {
    EntityRecordView {
        id: port_id,
        entity_type: EntityType::Interface,
        template_id: None,
        label: Some("Network Interface: "@ + name),
        description: Some("Automatically detected network card"@),
        configuration: JsonView::Object(Seq::empty()),
        attributes: JsonView::Object(seq![("driver"@, JsonView::Text("network"@)), ("interface_name"@, JsonView::Text(name))]),
        is_system: true,
    }
}

pub fn network_discovery_record(port_id: &str, name: &str) -> (r: EntityRecord)
    ensures
        r@ == network_record_spec(port_id@, name@),
{
    let a = vec![(to_string_of("driver"), JsonValue::text("network")), (to_string_of("interface_name"), JsonValue::text(name))];
    assert(entries_view(a@) =~= network_record_spec(port_id@, name@).attributes->Object_0);
    EntityRecord {
        id: to_string_of(port_id),
        entity_type: EntityType::Interface,
        template_id: None,
        label: Some(concat2("Network Interface: ", name)),
        description: Some(to_string_of("Automatically detected network card")),
        configuration: JsonValue::empty_object(),
        attributes: JsonValue::Object(a),
        is_system: true,
    }
}

/// What to do with an interface entity at start-up.
#[derive(Debug)]
pub enum InterfacePlan {
    /// The interface is disabled.
    Disabled,
    /// The interface is enabled but its hardware is not present.
    Missing,
    /// Open the interface with this run-time configuration.
    Spawn(JsonValue),
}

/// The driver an interface entity's attributes name, or empty.
pub open spec fn entity_driver(entity: Entity) -> Seq<char> {
    driver_name(entity.attributes@)
}

/// The entity's configuration with its driver set, when the configuration is an object.
pub open spec fn with_driver(entity: Entity) -> JsonView {
    entity.configuration@.insert("driver"@, JsonView::Text(entity_driver(entity)))
}

/// The run-time configuration of a present interface: for a serial port the current device
/// path, for a network card the current interface name.
pub open spec fn runtime_config_spec(entity: Entity, path: Seq<char>) -> JsonView {
    let d = entity_driver(entity);
    if d == "uart"@ {
        with_driver(entity).index_set("path"@, JsonView::Text(path))
    } else if d == "network"@ {
        with_driver(entity).index_set("interface_name"@, JsonView::Text(path))
    } else {
        with_driver(entity)
    }
}

/// Setting the current path needs the configuration to be null or an object.
pub open spec fn runtime_config_settable(entity: Entity) -> bool {
    let d = entity_driver(entity);
    (d == "uart"@ || d == "network"@) ==> (entity.configuration@ is Null || entity.configuration@ is Object)
}

/// The start-up decision for an interface entity, given the current path of its hardware.
pub fn plan_interface(entity: &Entity, current_path: Option<&str>) -> (r: InterfacePlan)
    requires
        entity.is_enabled && current_path is Some ==> runtime_config_settable(*entity),
    ensures
        match r {
            InterfacePlan::Disabled => !entity.is_enabled,
            InterfacePlan::Missing => entity.is_enabled && current_path is None,
            InterfacePlan::Spawn(c) => entity.is_enabled && current_path is Some && c@ == runtime_config_spec(
                *entity,
                current_path.unwrap()@,
            ),
        },
{
    if !entity.is_enabled {
        return InterfacePlan::Disabled;
    }
    let driver = match text_member_of(&entity.attributes, "driver") {
        Some(d) => d,
        None => String::new(),
    };
    let path = match current_path {
        Some(p) => p,
        None => {
            return InterfacePlan::Missing;
        },
    };
    let config = entity.configuration.duplicate().insert(to_string_of("driver"), JsonValue::text(driver.as_str()));
    let d = driver.as_str();
    if str_eq(d, "uart") {
        InterfacePlan::Spawn(config.index_set(to_string_of("path"), JsonValue::text(path)))
    } else if str_eq(d, "network") {
        InterfacePlan::Spawn(config.index_set(to_string_of("interface_name"), JsonValue::text(path)))
    } else {
        InterfacePlan::Spawn(config)
    }
}

} // verus!
