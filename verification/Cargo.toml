[package]
name = "thermostat_config"
version = "0.1.0"
edition = "2021"
publish = false

[dependencies]
actix-cors = "0.5"
actix-web = "3"
anyhow = "1"
async-trait = "0.1"
bb8 = "0.7"
chrono = { version = "0.4", features = ["serde"] }
diesel = { version = "1.4", features = ["postgres", "r2d2"] }
diesel_migrations = "1.4"
dotenv = "0.15"
env_logger = "0.8"
influxdb = "0.4"
juniper = "0.15"
serde = { version = "1", features = ["derive"] }
serde_json = "1"
thiserror = "1"
