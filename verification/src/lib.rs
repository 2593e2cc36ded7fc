pub mod core_bus;
pub mod db;
pub mod engines;
pub mod entities;
pub mod json;
pub mod managers;
pub mod registry;
pub mod relations;
pub mod runners;
pub mod settings;
pub mod telemetry;
pub mod templates;
pub mod text;
pub mod traits;
pub mod users;
