//! Core logic of the thermostat configuration service: configuration
//! assembly, InfluxDB connection settings, health reporting and the JSON
//! error bodies the HTTP layer answers with.

pub mod config;
pub mod influxdb_pool;
pub mod errors;
pub mod health;
pub mod error_handler;
pub mod influxdb;
pub mod json;
