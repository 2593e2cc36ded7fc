pub mod bootstrap;
pub mod main_db;
pub mod telemetry_db;
