use thermostat_config::influxdb_pool::{AuthInfo, InfluxDBConnectionInfo, InfluxDBConnectionManager};

fn auth() -> AuthInfo {
    AuthInfo {
        url: "http://localhost:8086".to_string(),
        database: "home".to_string(),
        username: "admin".to_string(),
        password: "secret".to_string(),
    }
}

#[test]
fn info_from_auth_info_keeps_everything() {
    let info = InfluxDBConnectionInfo::from(auth());
    assert_eq!(info.url(), "http://localhost:8086");
    assert_eq!(info.database(), "home");
    assert_eq!(info.credentials(), Some(("admin", "secret")));
}

#[test]
fn cloned_info_is_the_same() {
    let info = InfluxDBConnectionInfo::from(auth());
    let copy = info.clone();
    assert_eq!(copy.url(), info.url());
    assert_eq!(copy.database(), info.database());
    assert_eq!(copy.credentials(), info.credentials());
}

#[test]
fn manager_from_auth_info() {
    let manager = InfluxDBConnectionManager::new(auth());
    assert_eq!(manager.info().url(), "http://localhost:8086");
    assert_eq!(manager.info().database(), "home");
    assert_eq!(manager.info().credentials(), Some(("admin", "secret")));
}

#[test]
fn manager_from_connection_info() {
    let manager = InfluxDBConnectionManager::new(InfluxDBConnectionInfo::from(auth()));
    assert_eq!(manager.info().credentials(), Some(("admin", "secret")));
}

#[test]
fn manager_from_ready_info() {
    let manager = InfluxDBConnectionManager::from_info(InfluxDBConnectionInfo::from(auth()));
    assert_eq!(manager.info().url(), "http://localhost:8086");
    assert_eq!(manager.info().database(), "home");
    assert_eq!(manager.info().credentials(), Some(("admin", "secret")));
}
