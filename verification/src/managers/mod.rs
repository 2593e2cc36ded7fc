pub mod database;
pub mod device;
pub mod driver;
pub mod gateway;
pub mod interface;
pub mod template;
