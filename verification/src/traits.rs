//! The registry of measurement traits (the semantic kinds of data points) that templates may use.
use vstd::prelude::*;
use crate::registry::Registry;
use crate::text::to_string_of;

verus! {

/// The families of traits.
#[derive(Debug, Clone, Copy, PartialEq, Eq, Hash, Structural)]
pub enum TraitCategory {
    Electric,
    Thermal,
    Fluid,
    Environmental,
    Control,
    Storage,
    Solar,
    System,
}

/// A trait: its identifier, family, default unit and description.
#[derive(Debug, Clone, PartialEq)]
pub struct TraitDefinition {
    pub id: String,
    pub category: TraitCategory,
    pub default_unit: String,
    pub description: String,
}

/// The model of a trait definition.
pub struct TraitDefinitionView {
    pub id: Seq<char>,
    pub category: TraitCategory,
    pub default_unit: Seq<char>,
    pub description: Seq<char>,
}

impl View for TraitDefinition {
    type V = TraitDefinitionView;

    open spec fn view(&self) -> TraitDefinitionView {
        TraitDefinitionView {
            id: self.id@,
            category: self.category,
            default_unit: self.default_unit@,
            description: self.description@,
        }
    }
}

pub open spec fn trait_def(id: &str, category: TraitCategory, unit: &str, desc: &str) -> TraitDefinitionView {
    TraitDefinitionView { id: id@, category, default_unit: unit@, description: desc@ }
}

/// The official traits, keyed by identifier.
pub open spec fn official_traits() -> Map<Seq<char>, TraitDefinitionView> {
    Map::empty()
        .insert("voltage"@, trait_def("voltage", TraitCategory::Electric, "V", "RMS Voltage"))
        .insert("current"@, trait_def("current", TraitCategory::Electric, "A", "RMS Current"))
        .insert("power_active"@, trait_def("power_active", TraitCategory::Electric, "W", "Active power (real)"))
        .insert("power_apparent"@, trait_def("power_apparent", TraitCategory::Electric, "VA", "Apparent power"))
        .insert("power_reactive"@, trait_def("power_reactive", TraitCategory::Electric, "VAR", "Reactive power"))
        .insert("power_factor"@, trait_def("power_factor", TraitCategory::Electric, "", "Power factor"))
        .insert("energy_active"@, trait_def("energy_active", TraitCategory::Electric, "Wh", "Cumulative active energy (import)"))
        .insert("energy_active_returned"@, trait_def("energy_active_returned", TraitCategory::Electric, "Wh", "Cumulative active energy returned (export)"))
        .insert("energy_active_import_kwh"@, trait_def("energy_active_import_kwh", TraitCategory::Electric, "kWh", "Cumulative energy imported (standard unit)"))
        .insert("temperature"@, trait_def("temperature", TraitCategory::Thermal, "°C", "Ambient or sensor temperature"))
        .insert("thermostat_setpoint"@, trait_def("thermostat_setpoint", TraitCategory::Thermal, "°C", "Temperature Setpoint"))
        .insert("switch_state"@, trait_def("switch_state", TraitCategory::Control, "bool", "State of a relay/switch"))
        .insert("switch_cmd"@, trait_def("switch_cmd", TraitCategory::Control, "bool", "Control command for a switch"))
        .insert("battery_soc"@, trait_def("battery_soc", TraitCategory::Storage, "%", "State of Charge"))
        .insert("battery_voltage"@, trait_def("battery_voltage", TraitCategory::Storage, "V", "Battery bank voltage"))
        .insert("rssi"@, trait_def("rssi", TraitCategory::System, "dBm", "Signal strength"))
        .insert("uptime"@, trait_def("uptime", TraitCategory::System, "s", "System uptime"))
        .insert("status"@, trait_def("status", TraitCategory::System, "string", "Device status message"))
}

impl TraitDefinition {
    pub fn new(id: &str, category: TraitCategory, unit: &str, desc: &str) -> (r: Self)
        ensures
            r@ == trait_def(id, category, unit, desc),
    {
        TraitDefinition {
            id: to_string_of(id),
            category,
            default_unit: to_string_of(unit),
            description: to_string_of(desc),
        }
    }
}

/// The traits known to the system, keyed by identifier.
pub struct TraitRegistry {
    traits: Registry<TraitDefinition>,
}

impl TraitRegistry {
    /// The model: each registered identifier with its definition.
    pub closed spec fn defs(&self) -> Map<Seq<char>, TraitDefinitionView> {
        self.traits.map().map_values(|d: TraitDefinition| d@)
    }

    fn add(reg: &mut Registry<TraitDefinition>, d: TraitDefinition)
        ensures
            final(reg).map().map_values(|x: TraitDefinition| x@) == old(reg).map().map_values(
                |x: TraitDefinition| x@,
            ).insert(d@.id, d@),
    {
        let ghost dv = d@;
        let k = d.id.clone();
        reg.insert(k, d);
        assert(reg.map().map_values(|x: TraitDefinition| x@) =~= old(reg).map().map_values(
            |x: TraitDefinition| x@,
        ).insert(dv.id, dv));
    }

    /// The registry of the official traits.
    pub fn build() -> (r: Self)
        ensures
            r.defs() == official_traits(),
    {
        let mut t: Registry<TraitDefinition> = Registry::new();
        assert(t.map().map_values(|x: TraitDefinition| x@) =~= Map::<Seq<char>, TraitDefinitionView>::empty());
        Self::add(&mut t, TraitDefinition::new("voltage", TraitCategory::Electric, "V", "RMS Voltage"));
        Self::add(&mut t, TraitDefinition::new("current", TraitCategory::Electric, "A", "RMS Current"));
        Self::add(&mut t, TraitDefinition::new("power_active", TraitCategory::Electric, "W", "Active power (real)"));
        Self::add(&mut t, TraitDefinition::new("power_apparent", TraitCategory::Electric, "VA", "Apparent power"));
        Self::add(&mut t, TraitDefinition::new("power_reactive", TraitCategory::Electric, "VAR", "Reactive power"));
        Self::add(&mut t, TraitDefinition::new("power_factor", TraitCategory::Electric, "", "Power factor"));
        Self::add(&mut t, TraitDefinition::new("energy_active", TraitCategory::Electric, "Wh", "Cumulative active energy (import)"));
        Self::add(&mut t, TraitDefinition::new("energy_active_returned", TraitCategory::Electric, "Wh", "Cumulative active energy returned (export)"));
        Self::add(&mut t, TraitDefinition::new("energy_active_import_kwh", TraitCategory::Electric, "kWh", "Cumulative energy imported (standard unit)"));
        Self::add(&mut t, TraitDefinition::new("temperature", TraitCategory::Thermal, "°C", "Ambient or sensor temperature"));
        Self::add(&mut t, TraitDefinition::new("thermostat_setpoint", TraitCategory::Thermal, "°C", "Temperature Setpoint"));
        Self::add(&mut t, TraitDefinition::new("switch_state", TraitCategory::Control, "bool", "State of a relay/switch"));
        Self::add(&mut t, TraitDefinition::new("switch_cmd", TraitCategory::Control, "bool", "Control command for a switch"));
        Self::add(&mut t, TraitDefinition::new("battery_soc", TraitCategory::Storage, "%", "State of Charge"));
        Self::add(&mut t, TraitDefinition::new("battery_voltage", TraitCategory::Storage, "V", "Battery bank voltage"));
        Self::add(&mut t, TraitDefinition::new("rssi", TraitCategory::System, "dBm", "Signal strength"));
        Self::add(&mut t, TraitDefinition::new("uptime", TraitCategory::System, "s", "System uptime"));
        Self::add(&mut t, TraitDefinition::new("status", TraitCategory::System, "string", "Device status message"));
        TraitRegistry { traits: t }
    }

    /// The trait `trait_id` is registered.
    pub fn trait_exists(&self, trait_id: &str) -> (r: bool)
        ensures
            r == self.defs().contains_key(trait_id@),
    {
        self.traits.contains_key(trait_id)
    }

    /// The definition of the trait `trait_id`.
    pub fn get(&self, trait_id: &str) -> (r: Option<&TraitDefinition>)
        ensures
            match r {
                Some(d) => self.defs().contains_key(trait_id@) && self.defs()[trait_id@] == d@,
                None => !self.defs().contains_key(trait_id@),
            },
    {
        self.traits.get(trait_id)
    }
}

/// The registry built at start-up holds the official catalogue: each official trait with its
/// category and default unit (active power in W, temperature in degrees Celsius, ...), and no
/// other trait.
#[verifier::rlimit(50)]
pub proof fn lemma_official_catalogue(reg: TraitRegistry, k: Seq<char>)
    requires
        reg.defs() == official_traits(),
    ensures
        reg.defs().contains_key("voltage"@) && reg.defs()["voltage"@].category == TraitCategory::Electric
            && reg.defs()["voltage"@].default_unit == "V"@,
        reg.defs().contains_key("current"@) && reg.defs()["current"@].category == TraitCategory::Electric
            && reg.defs()["current"@].default_unit == "A"@,
        reg.defs().contains_key("power_active"@) && reg.defs()["power_active"@].category == TraitCategory::Electric
            && reg.defs()["power_active"@].default_unit == "W"@,
        reg.defs().contains_key("power_apparent"@) && reg.defs()["power_apparent"@].category == TraitCategory::Electric
            && reg.defs()["power_apparent"@].default_unit == "VA"@,
        reg.defs().contains_key("power_reactive"@) && reg.defs()["power_reactive"@].category == TraitCategory::Electric
            && reg.defs()["power_reactive"@].default_unit == "VAR"@,
        reg.defs().contains_key("power_factor"@) && reg.defs()["power_factor"@].category == TraitCategory::Electric
            && reg.defs()["power_factor"@].default_unit == ""@,
        reg.defs().contains_key("energy_active"@) && reg.defs()["energy_active"@].category == TraitCategory::Electric
            && reg.defs()["energy_active"@].default_unit == "Wh"@,
        reg.defs().contains_key("energy_active_returned"@) && reg.defs()["energy_active_returned"@].category == TraitCategory::Electric
            && reg.defs()["energy_active_returned"@].default_unit == "Wh"@,
        reg.defs().contains_key("energy_active_import_kwh"@) && reg.defs()["energy_active_import_kwh"@].category == TraitCategory::Electric
            && reg.defs()["energy_active_import_kwh"@].default_unit == "kWh"@,
        reg.defs().contains_key("temperature"@) && reg.defs()["temperature"@].category == TraitCategory::Thermal
            && reg.defs()["temperature"@].default_unit == "°C"@,
        reg.defs().contains_key("thermostat_setpoint"@) && reg.defs()["thermostat_setpoint"@].category == TraitCategory::Thermal
            && reg.defs()["thermostat_setpoint"@].default_unit == "°C"@,
        reg.defs().contains_key("switch_state"@) && reg.defs()["switch_state"@].category == TraitCategory::Control
            && reg.defs()["switch_state"@].default_unit == "bool"@,
        reg.defs().contains_key("switch_cmd"@) && reg.defs()["switch_cmd"@].category == TraitCategory::Control
            && reg.defs()["switch_cmd"@].default_unit == "bool"@,
        reg.defs().contains_key("battery_soc"@) && reg.defs()["battery_soc"@].category == TraitCategory::Storage
            && reg.defs()["battery_soc"@].default_unit == "%"@,
        reg.defs().contains_key("battery_voltage"@) && reg.defs()["battery_voltage"@].category == TraitCategory::Storage
            && reg.defs()["battery_voltage"@].default_unit == "V"@,
        reg.defs().contains_key("rssi"@) && reg.defs()["rssi"@].category == TraitCategory::System
            && reg.defs()["rssi"@].default_unit == "dBm"@,
        reg.defs().contains_key("uptime"@) && reg.defs()["uptime"@].category == TraitCategory::System
            && reg.defs()["uptime"@].default_unit == "s"@,
        reg.defs().contains_key("status"@) && reg.defs()["status"@].category == TraitCategory::System
            && reg.defs()["status"@].default_unit == "string"@,
        reg.defs().contains_key(k) ==> (k == "voltage"@ || k == "current"@ || k == "power_active"@ || k == "power_apparent"@ || k == "power_reactive"@ || k == "power_factor"@ || k == "energy_active"@ || k == "energy_active_returned"@ || k == "energy_active_import_kwh"@ || k == "temperature"@ || k == "thermostat_setpoint"@ || k == "switch_state"@ || k == "switch_cmd"@ || k == "battery_soc"@ || k == "battery_voltage"@ || k == "rssi"@ || k == "uptime"@ || k == "status"@),
{
    reveal_strlit("");
    reveal_strlit("%");
    reveal_strlit("A");
    reveal_strlit("V");
    reveal_strlit("VA");
    reveal_strlit("VAR");
    reveal_strlit("W");
    reveal_strlit("Wh");
    reveal_strlit("battery_soc");
    reveal_strlit("battery_voltage");
    reveal_strlit("bool");
    reveal_strlit("current");
    reveal_strlit("dBm");
    reveal_strlit("energy_active");
    reveal_strlit("energy_active_import_kwh");
    reveal_strlit("energy_active_returned");
    reveal_strlit("kWh");
    reveal_strlit("power_active");
    reveal_strlit("power_apparent");
    reveal_strlit("power_factor");
    reveal_strlit("power_reactive");
    reveal_strlit("rssi");
    reveal_strlit("s");
    reveal_strlit("status");
    reveal_strlit("string");
    reveal_strlit("switch_cmd");
    reveal_strlit("switch_state");
    reveal_strlit("temperature");
    reveal_strlit("thermostat_setpoint");
    reveal_strlit("uptime");
    reveal_strlit("voltage");
    reveal_strlit("°C");
    // The identifiers are pairwise distinct, so no later entry of the catalogue hides an
    // earlier one.
    assert("voltage"@[0] != "current"@[0]);
    assert("voltage"@.len() != "power_active"@.len());
    assert("voltage"@.len() != "power_apparent"@.len());
    assert("voltage"@.len() != "power_reactive"@.len());
    assert("voltage"@.len() != "power_factor"@.len());
    assert("voltage"@.len() != "energy_active"@.len());
    assert("voltage"@.len() != "energy_active_returned"@.len());
    assert("voltage"@.len() != "energy_active_import_kwh"@.len());
    assert("voltage"@.len() != "temperature"@.len());
    assert("voltage"@.len() != "thermostat_setpoint"@.len());
    assert("voltage"@.len() != "switch_state"@.len());
    assert("voltage"@.len() != "switch_cmd"@.len());
    assert("voltage"@.len() != "battery_soc"@.len());
    assert("voltage"@.len() != "battery_voltage"@.len());
    assert("voltage"@.len() != "rssi"@.len());
    assert("voltage"@.len() != "uptime"@.len());
    assert("voltage"@.len() != "status"@.len());
    assert("current"@.len() != "power_active"@.len());
    assert("current"@.len() != "power_apparent"@.len());
    assert("current"@.len() != "power_reactive"@.len());
    assert("current"@.len() != "power_factor"@.len());
    assert("current"@.len() != "energy_active"@.len());
    assert("current"@.len() != "energy_active_returned"@.len());
    assert("current"@.len() != "energy_active_import_kwh"@.len());
    assert("current"@.len() != "temperature"@.len());
    assert("current"@.len() != "thermostat_setpoint"@.len());
    assert("current"@.len() != "switch_state"@.len());
    assert("current"@.len() != "switch_cmd"@.len());
    assert("current"@.len() != "battery_soc"@.len());
    assert("current"@.len() != "battery_voltage"@.len());
    assert("current"@.len() != "rssi"@.len());
    assert("current"@.len() != "uptime"@.len());
    assert("current"@.len() != "status"@.len());
    assert("power_active"@.len() != "power_apparent"@.len());
    assert("power_active"@.len() != "power_reactive"@.len());
    assert("power_active"@[6] != "power_factor"@[6]);
    assert("power_active"@.len() != "energy_active"@.len());
    assert("power_active"@.len() != "energy_active_returned"@.len());
    assert("power_active"@.len() != "energy_active_import_kwh"@.len());
    assert("power_active"@.len() != "temperature"@.len());
    assert("power_active"@.len() != "thermostat_setpoint"@.len());
    assert("power_active"@[0] != "switch_state"@[0]);
    assert("power_active"@.len() != "switch_cmd"@.len());
    assert("power_active"@.len() != "battery_soc"@.len());
    assert("power_active"@.len() != "battery_voltage"@.len());
    assert("power_active"@.len() != "rssi"@.len());
    assert("power_active"@.len() != "uptime"@.len());
    assert("power_active"@.len() != "status"@.len());
    assert("power_apparent"@[6] != "power_reactive"@[6]);
    assert("power_apparent"@.len() != "power_factor"@.len());
    assert("power_apparent"@.len() != "energy_active"@.len());
    assert("power_apparent"@.len() != "energy_active_returned"@.len());
    assert("power_apparent"@.len() != "energy_active_import_kwh"@.len());
    assert("power_apparent"@.len() != "temperature"@.len());
    assert("power_apparent"@.len() != "thermostat_setpoint"@.len());
    assert("power_apparent"@.len() != "switch_state"@.len());
    assert("power_apparent"@.len() != "switch_cmd"@.len());
    assert("power_apparent"@.len() != "battery_soc"@.len());
    assert("power_apparent"@.len() != "battery_voltage"@.len());
    assert("power_apparent"@.len() != "rssi"@.len());
    assert("power_apparent"@.len() != "uptime"@.len());
    assert("power_apparent"@.len() != "status"@.len());
    assert("power_reactive"@.len() != "power_factor"@.len());
    assert("power_reactive"@.len() != "energy_active"@.len());
    assert("power_reactive"@.len() != "energy_active_returned"@.len());
    assert("power_reactive"@.len() != "energy_active_import_kwh"@.len());
    assert("power_reactive"@.len() != "temperature"@.len());
    assert("power_reactive"@.len() != "thermostat_setpoint"@.len());
    assert("power_reactive"@.len() != "switch_state"@.len());
    assert("power_reactive"@.len() != "switch_cmd"@.len());
    assert("power_reactive"@.len() != "battery_soc"@.len());
    assert("power_reactive"@.len() != "battery_voltage"@.len());
    assert("power_reactive"@.len() != "rssi"@.len());
    assert("power_reactive"@.len() != "uptime"@.len());
    assert("power_reactive"@.len() != "status"@.len());
    assert("power_factor"@.len() != "energy_active"@.len());
    assert("power_factor"@.len() != "energy_active_returned"@.len());
    assert("power_factor"@.len() != "energy_active_import_kwh"@.len());
    assert("power_factor"@.len() != "temperature"@.len());
    assert("power_factor"@.len() != "thermostat_setpoint"@.len());
    assert("power_factor"@[0] != "switch_state"@[0]);
    assert("power_factor"@.len() != "switch_cmd"@.len());
    assert("power_factor"@.len() != "battery_soc"@.len());
    assert("power_factor"@.len() != "battery_voltage"@.len());
    assert("power_factor"@.len() != "rssi"@.len());
    assert("power_factor"@.len() != "uptime"@.len());
    assert("power_factor"@.len() != "status"@.len());
    assert("energy_active"@.len() != "energy_active_returned"@.len());
    assert("energy_active"@.len() != "energy_active_import_kwh"@.len());
    assert("energy_active"@.len() != "temperature"@.len());
    assert("energy_active"@.len() != "thermostat_setpoint"@.len());
    assert("energy_active"@.len() != "switch_state"@.len());
    assert("energy_active"@.len() != "switch_cmd"@.len());
    assert("energy_active"@.len() != "battery_soc"@.len());
    assert("energy_active"@.len() != "battery_voltage"@.len());
    assert("energy_active"@.len() != "rssi"@.len());
    assert("energy_active"@.len() != "uptime"@.len());
    assert("energy_active"@.len() != "status"@.len());
    assert("energy_active_returned"@.len() != "energy_active_import_kwh"@.len());
    assert("energy_active_returned"@.len() != "temperature"@.len());
    assert("energy_active_returned"@.len() != "thermostat_setpoint"@.len());
    assert("energy_active_returned"@.len() != "switch_state"@.len());
    assert("energy_active_returned"@.len() != "switch_cmd"@.len());
    assert("energy_active_returned"@.len() != "battery_soc"@.len());
    assert("energy_active_returned"@.len() != "battery_voltage"@.len());
    assert("energy_active_returned"@.len() != "rssi"@.len());
    assert("energy_active_returned"@.len() != "uptime"@.len());
    assert("energy_active_returned"@.len() != "status"@.len());
    assert("energy_active_import_kwh"@.len() != "temperature"@.len());
    assert("energy_active_import_kwh"@.len() != "thermostat_setpoint"@.len());
    assert("energy_active_import_kwh"@.len() != "switch_state"@.len());
    assert("energy_active_import_kwh"@.len() != "switch_cmd"@.len());
    assert("energy_active_import_kwh"@.len() != "battery_soc"@.len());
    assert("energy_active_import_kwh"@.len() != "battery_voltage"@.len());
    assert("energy_active_import_kwh"@.len() != "rssi"@.len());
    assert("energy_active_import_kwh"@.len() != "uptime"@.len());
    assert("energy_active_import_kwh"@.len() != "status"@.len());
    assert("temperature"@.len() != "thermostat_setpoint"@.len());
    assert("temperature"@.len() != "switch_state"@.len());
    assert("temperature"@.len() != "switch_cmd"@.len());
    assert("temperature"@[0] != "battery_soc"@[0]);
    assert("temperature"@.len() != "battery_voltage"@.len());
    assert("temperature"@.len() != "rssi"@.len());
    assert("temperature"@.len() != "uptime"@.len());
    assert("temperature"@.len() != "status"@.len());
    assert("thermostat_setpoint"@.len() != "switch_state"@.len());
    assert("thermostat_setpoint"@.len() != "switch_cmd"@.len());
    assert("thermostat_setpoint"@.len() != "battery_soc"@.len());
    assert("thermostat_setpoint"@.len() != "battery_voltage"@.len());
    assert("thermostat_setpoint"@.len() != "rssi"@.len());
    assert("thermostat_setpoint"@.len() != "uptime"@.len());
    assert("thermostat_setpoint"@.len() != "status"@.len());
    assert("switch_state"@.len() != "switch_cmd"@.len());
    assert("switch_state"@.len() != "battery_soc"@.len());
    assert("switch_state"@.len() != "battery_voltage"@.len());
    assert("switch_state"@.len() != "rssi"@.len());
    assert("switch_state"@.len() != "uptime"@.len());
    assert("switch_state"@.len() != "status"@.len());
    assert("switch_cmd"@.len() != "battery_soc"@.len());
    assert("switch_cmd"@.len() != "battery_voltage"@.len());
    assert("switch_cmd"@.len() != "rssi"@.len());
    assert("switch_cmd"@.len() != "uptime"@.len());
    assert("switch_cmd"@.len() != "status"@.len());
    assert("battery_soc"@.len() != "battery_voltage"@.len());
    assert("battery_soc"@.len() != "rssi"@.len());
    assert("battery_soc"@.len() != "uptime"@.len());
    assert("battery_soc"@.len() != "status"@.len());
    assert("battery_voltage"@.len() != "rssi"@.len());
    assert("battery_voltage"@.len() != "uptime"@.len());
    assert("battery_voltage"@.len() != "status"@.len());
    assert("rssi"@.len() != "uptime"@.len());
    assert("rssi"@.len() != "status"@.len());
    assert("uptime"@[0] != "status"@[0]);
}

/// A trait is registered exactly when it has a definition, and that definition carries the
/// identifier it is registered under.
pub proof fn lemma_registry_lookup(reg: TraitRegistry, id: Seq<char>)
    requires
        reg.defs() == official_traits(),
    ensures
        reg.defs().contains_key(id) ==> reg.defs()[id].id == id,
{
    let m = official_traits();
    if m.contains_key(id) {
        assert(m[id].id == id);
    }
}

} // verus!
