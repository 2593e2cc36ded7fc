pub mod dispatcher;
pub mod manager;
pub mod runner;
pub mod types;
