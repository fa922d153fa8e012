use thermostat_config::errors::HttpError;
use thermostat_config::health::{
    device_query, health, health_devices, probe_status, DeviceProbe, HealthStatus,
    HealthStatusDevice, HealthStatusDeviceEnum, ProbeOutcome,
};

fn status(version: &str, postgres: &str, influx: &str) -> HealthStatus {
    HealthStatus {
        version: version.to_string(),
        api: "ok".to_string(),
        database_postgres: postgres.to_string(),
        database_influx: influx.to_string(),
    }
}

fn device(version: &str, influx: &str, state: &str) -> HealthStatusDevice {
    HealthStatusDevice {
        version: version.to_string(),
        database_influx: influx.to_string(),
        status: state.to_string(),
    }
}

#[test]
fn test_health() {
    let response = health(Some("0.1.0"), ProbeOutcome::Reachable, ProbeOutcome::Reachable);
    let expected = HealthStatus {
        version: "0.1.0".to_string(),
        api: "ok".to_string(),
        database_postgres: "ok".to_string(),
        database_influx: "ok".to_string(),
    };
    assert_eq!(response.unwrap(), expected);
}

#[test]
fn health_without_version() {
    let response = health(None, ProbeOutcome::Reachable, ProbeOutcome::Reachable);
    assert_eq!(response.unwrap(), status("", "ok", "ok"));
}

#[test]
fn health_with_postgres_down_is_unavailable() {
    let response = health(
        Some("0.1.0"),
        ProbeOutcome::Failed("Error(None)".to_string()),
        ProbeOutcome::Reachable,
    );
    match response {
        Err(HttpError::ServiceUnavailable(s)) => {
            assert_eq!(s, status("0.1.0", "error: Error(None)", "ok"))
        },
        Ok(_) => panic!("expected an error"),
    }
}

#[test]
fn health_with_influx_blocked_is_unavailable() {
    let response = health(Some("0.1.0"), ProbeOutcome::Reachable, ProbeOutcome::Blocked);
    match response {
        Err(HttpError::ServiceUnavailable(s)) => {
            assert_eq!(s, status("0.1.0", "ok", "BlockingError"))
        },
        Ok(_) => panic!("expected an error"),
    }
}

#[test]
fn probe_texts() {
    assert_eq!(probe_status(&ProbeOutcome::Reachable), "ok");
    assert_eq!(probe_status(&ProbeOutcome::Failed("x".to_string())), "error: x");
    assert_eq!(probe_status(&ProbeOutcome::Blocked), "BlockingError");
}

#[test]
fn device_queries() {
    assert_eq!(
        device_query(HealthStatusDeviceEnum::Weather),
        (
            "SELECT COUNT(apparentTemperature) AS values_count FROM weather WHERE time > now() - 3h"
                .to_string(),
            "3h".to_string()
        )
    );
    assert_eq!(
        device_query(HealthStatusDeviceEnum::MasterBedroom),
        (
            r#"SELECT COUNT(temperature) AS values_count FROM sensors WHERE time > now() - 15m AND "location" =~ /^Master Bedroom$/"#
                .to_string(),
            "15m".to_string()
        )
    );
    assert_eq!(
        device_query(HealthStatusDeviceEnum::LivingRoom),
        (
            r#"SELECT COUNT(temperature) AS values_count FROM sensors WHERE time > now() - 15m AND "location" =~ /^Living Room$/"#
                .to_string(),
            "15m".to_string()
        )
    );
    assert_eq!(
        device_query(HealthStatusDeviceEnum::Thermostat),
        (
            "SELECT COUNT(temperature_current) AS values_count FROM boilers WHERE time > now() - 15m"
                .to_string(),
            "15m".to_string()
        )
    );
}

#[test]
fn device_with_data_is_healthy() {
    let response = health_devices(Some("0.1.0"), HealthStatusDeviceEnum::Weather, DeviceProbe::Rows(3));
    assert_eq!(response.unwrap(), device("0.1.0", "ok", "ok"));
}

#[test]
fn weather_without_data_is_unavailable() {
    let response = health_devices(Some("0.1.0"), HealthStatusDeviceEnum::Weather, DeviceProbe::Rows(0));
    match response {
        Err(HttpError::ServiceUnavailable(s)) => {
            assert_eq!(s, device("0.1.0", "ok", "error: no data found in the last 3h"))
        },
        Ok(_) => panic!("expected an error"),
    }
}

#[test]
fn thermostat_without_data_is_unavailable() {
    let response = health_devices(None, HealthStatusDeviceEnum::Thermostat, DeviceProbe::Rows(0));
    match response {
        Err(HttpError::ServiceUnavailable(s)) => {
            assert_eq!(s, device("", "ok", "error: no data found in the last 15m"))
        },
        Ok(_) => panic!("expected an error"),
    }
}

#[test]
fn failed_device_query_is_unavailable() {
    let response = health_devices(
        Some("0.1.0"),
        HealthStatusDeviceEnum::LivingRoom,
        DeviceProbe::Failed("Influx query error".to_string()),
    );
    match response {
        Err(HttpError::ServiceUnavailable(s)) => {
            assert_eq!(s, device("0.1.0", "error: Influx query error", "unknown"))
        },
        Ok(_) => panic!("expected an error"),
    }
}

#[test]
fn blocked_device_probe_is_unavailable() {
    let response = health_devices(Some("0.1.0"), HealthStatusDeviceEnum::MasterBedroom, DeviceProbe::Blocked);
    match response {
        Err(HttpError::ServiceUnavailable(s)) => {
            assert_eq!(s, device("0.1.0", "error: BlockingError", "unknown"))
        },
        Ok(_) => panic!("expected an error"),
    }
}
