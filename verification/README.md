# osheems_common

The common layer of OSHEEMS, an energy-management system for installations of meters,
relays, inverters and batteries: the entity and relation model, users and roles, the trait
registry, entity templates, the core MQTT bus, the drivers that tie gateways, interfaces and
devices together, and the storage of configuration and telemetry.

## Layout

- `src/` is the library, written and proved with Verus. Each public function states what it
  returns over a mathematical model (`Seq`, `Map`, views of the data types), and the laws of
  the system (topic round trips, role hierarchy, read-after-write of gateway states, the
  lookup of merged configurations, the bootstrap order, the template catalogue) are proof
  functions beside the code they speak of.
  - `json.rs`, `text.rs`, `registry.rs`: JSON values, text helpers and the keyed store that
    the rest is built on.
  - `entities.rs`, `relations.rs`, `users.rs`, `traits.rs`, `settings.rs`, `telemetry.rs`:
    the data model.
  - `core_bus/`: topics, suffixes, dispatching and the bus connection settings.
  - `db/`: the bootstrap plan, query texts and the rotation of telemetry files.
  - `managers/`, `templates.rs`, `runners/`, `engines/`: templates, drivers, gateways,
    devices, hardware interfaces, the decisions of the MQTT gateway runner and the
    compilation of driver scripts.
- `app/` is the service around the library: SQLite, MQTT sessions, the Rhai script engine,
  serial, network and I2C ports, file loading and `main`.
- `tests/` exercises the library on concrete values.
