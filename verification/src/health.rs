use vstd::prelude::*;
use vstd::string::*;
use vstd::std_specs::cmp::PartialEqSpec;
use vstd::std_specs::cmp::PartialEqSpecImpl;

use crate::errors::HttpError;

verus! {

/// What the service reports about itself and the databases it depends on.
#[derive(Debug)]
pub struct HealthStatus {
    pub version: String,
    pub api: String,
    pub database_postgres: String,
    pub database_influx: String,
}

impl PartialEq for HealthStatus {
    fn eq(&self, other: &HealthStatus) -> (same: bool) {
        self.version == other.version && self.api == other.api && self.database_postgres
            == other.database_postgres && self.database_influx == other.database_influx
    }
}

impl PartialEqSpecImpl for HealthStatus {
    open spec fn obeys_eq_spec() -> bool {
        true
    }

    open spec fn eq_spec(&self, other: &HealthStatus) -> bool {
        &&& self.version@ == other.version@
        &&& self.api@ == other.api@
        &&& self.database_postgres@ == other.database_postgres@
        &&& self.database_influx@ == other.database_influx@
    }
}

/// The devices whose data flow can be checked.
#[derive(Debug, Clone, Copy, PartialEq, Eq, Structural)]
pub enum HealthStatusDeviceEnum {
    Weather,
    Thermostat,
    LivingRoom,
    MasterBedroom,
}

/// What the service reports about the data flow of one device.
#[derive(Debug)]
pub struct HealthStatusDevice {
    pub version: String,
    pub database_influx: String,
    pub status: String,
}

impl PartialEq for HealthStatusDevice {
    fn eq(&self, other: &HealthStatusDevice) -> (same: bool) {
        self.version == other.version && self.database_influx == other.database_influx
            && self.status == other.status
    }
}

impl PartialEqSpecImpl for HealthStatusDevice {
    open spec fn obeys_eq_spec() -> bool {
        true
    }

    open spec fn eq_spec(&self, other: &HealthStatusDevice) -> bool {
        &&& self.version@ == other.version@
        &&& self.database_influx@ == other.database_influx@
        &&& self.status@ == other.status@
    }
}

} // verus!

verus! {

impl Eq for HealthStatus {}

impl Eq for HealthStatusDevice {}

/// How asking one database whether it is reachable went.
#[derive(Debug)]
pub enum ProbeOutcome {
    /// The database answered.
    Reachable,
    /// The database could not be reached; the text describes why.
    Failed(String),
    /// The probe itself could not be run.
    Blocked,
}

/// The text reported for a version, or the empty text when none is known.
pub open spec fn version_text_spec(version: Option<&str>) -> Seq<char> {
    match version {
        Some(v) => v@,
        None => ""@,
    }
}

/// The text reported for a probe: `ok`, `error: <why>` or `BlockingError`.
pub open spec fn probe_status_spec(outcome: ProbeOutcome) -> Seq<char> {
    match outcome {
        ProbeOutcome::Reachable => "ok"@,
        ProbeOutcome::Failed(why) => "error: "@ + why@,
        ProbeOutcome::Blocked => "BlockingError"@,
    }
}

/// The status a response carries, whether it is a success or not.
pub open spec fn carried<T>(r: Result<T, HttpError<T>>) -> T {
    match r {
        Ok(s) => s,
        Err(HttpError::ServiceUnavailable(s)) => s,
    }
}

/// The text reported for a version.
pub fn version_text(version: Option<&str>) -> (text: String)
    ensures
        text@ == version_text_spec(version),
        version matches Some(v) ==> text@ == v@,
        version is None ==> text@.len() == 0,
{
    proof {
        lemma_version_text_exact(version);
    }
    match version {
        Some(v) => v.to_string(),
        None => String::from_str(""),
    }
}

/// The text reported for a probe.
pub fn probe_status(outcome: &ProbeOutcome) -> (text: String)
    ensures
        text@ == probe_status_spec(*outcome),
        (text@ == "ok"@) <==> (*outcome is Reachable),
        *outcome matches ProbeOutcome::Failed(why) ==> text@.subrange(0, 7) == "error: "@
            && text@.subrange(7, text@.len() as int) == why@,
{
    proof {
        lemma_probe_status_texts(*outcome);
    }
    match outcome {
        ProbeOutcome::Reachable => String::from_str("ok"),
        ProbeOutcome::Failed(why) => String::from_str("error: ").concat(why.as_str()),
        ProbeOutcome::Blocked => String::from_str("BlockingError"),
    }
}

/// A probe is reported as `ok` exactly when the database answered.
pub proof fn lemma_probe_ok_iff_reachable(outcome: ProbeOutcome)
    ensures
        (probe_status_spec(outcome) == "ok"@) <==> (outcome is Reachable),
{
    reveal_strlit("ok");
    reveal_strlit("error: ");
    reveal_strlit("BlockingError");
    match outcome {
        ProbeOutcome::Reachable => {},
        ProbeOutcome::Failed(why) => {
            assert(probe_status_spec(outcome).len() != "ok"@.len());
        },
        ProbeOutcome::Blocked => {
            assert(probe_status_spec(outcome).len() != "ok"@.len());
        },
    }
}

/// Whether a reported text is `ok`.
fn is_ok_text(text: &String) -> (ok: bool)
    ensures
        ok == (text@ == "ok"@),
{
    let ok_text = String::from_str("ok");
    *text == ok_text
}

/// The health report of the service, given how the probes of PostgreSQL and
/// InfluxDB went. It is a success exactly when both databases answered;
/// otherwise the same report comes as a Service Unavailable error.
pub fn health(
    version: Option<&str>,
    database_postgres: ProbeOutcome,
    database_influx: ProbeOutcome,
) -> (res: Result<HealthStatus, HttpError<HealthStatus>>)
    ensures
        carried(res).version@ == version_text_spec(version),
        version matches Some(v) ==> carried(res).version@ == v@,
        version is None ==> carried(res).version@.len() == 0,
        carried(res).api@ == "ok"@,
        (carried(res).database_postgres@ == "ok"@) <==> (database_postgres is Reachable),
        (carried(res).database_influx@ == "ok"@) <==> (database_influx is Reachable),
        carried(res).database_postgres@ == probe_status_spec(database_postgres),
        carried(res).database_influx@ == probe_status_spec(database_influx),
        res is Ok <==> (database_postgres is Reachable && database_influx is Reachable),
{
    proof {
        lemma_version_text_exact(version);
    }
    let postgres_text = probe_status(&database_postgres);
    let influx_text = probe_status(&database_influx);
    let both_ok = is_ok_text(&postgres_text) && is_ok_text(&influx_text);
    proof {
        lemma_probe_ok_iff_reachable(database_postgres);
        lemma_probe_ok_iff_reachable(database_influx);
    }
    let status = HealthStatus {
        version: version_text(version),
        api: String::from_str("ok"),
        database_postgres: postgres_text,
        database_influx: influx_text,
    };
    if both_ok {
        Ok(status)
    } else {
        Err(HttpError::ServiceUnavailable(status))
    }
}

} // verus!

verus! {

/// How far back data of a device is looked for: three hours of weather data,
/// fifteen minutes for the other devices.
pub open spec fn device_window_spec(device: HealthStatusDeviceEnum) -> Seq<char> {
    match device {
        HealthStatusDeviceEnum::Weather => "3h"@,
        _ => "15m"@,
    }
}

/// The InfluxDB query that counts the recent values of a device.
pub open spec fn device_query_spec(device: HealthStatusDeviceEnum) -> Seq<char> {
    let window = device_window_spec(device);
    match device {
        HealthStatusDeviceEnum::Weather => "SELECT COUNT(apparentTemperature) AS values_count FROM weather WHERE time > now() - "@
            + window,
        HealthStatusDeviceEnum::MasterBedroom => "SELECT COUNT(temperature) AS values_count FROM sensors WHERE time > now() - "@
            + window + " AND \"location\" =~ /^Master Bedroom$/"@,
        HealthStatusDeviceEnum::LivingRoom => "SELECT COUNT(temperature) AS values_count FROM sensors WHERE time > now() - "@
            + window + " AND \"location\" =~ /^Living Room$/"@,
        HealthStatusDeviceEnum::Thermostat => "SELECT COUNT(temperature_current) AS values_count FROM boilers WHERE time > now() - "@
            + window,
    }
}

/// The query that counts the recent values of a device, and the time window
/// it looks back over.
pub fn device_query(device: HealthStatusDeviceEnum) -> (res: (String, String))
    ensures
        res.0@ == device_query_spec(device),
        res.1@ == device_window_spec(device),
{
    match device {
        HealthStatusDeviceEnum::Weather => {
            let time = String::from_str("3h");
            let query = String::from_str(
                "SELECT COUNT(apparentTemperature) AS values_count FROM weather WHERE time > now() - ",
            ).concat(time.as_str());
            (query, time)
        },
        HealthStatusDeviceEnum::MasterBedroom => {
            let time = String::from_str("15m");
            let query = String::from_str(
                "SELECT COUNT(temperature) AS values_count FROM sensors WHERE time > now() - ",
            ).concat(time.as_str()).concat(" AND \"location\" =~ /^Master Bedroom$/");
            (query, time)
        },
        HealthStatusDeviceEnum::LivingRoom => {
            let time = String::from_str("15m");
            let query = String::from_str(
                "SELECT COUNT(temperature) AS values_count FROM sensors WHERE time > now() - ",
            ).concat(time.as_str()).concat(" AND \"location\" =~ /^Living Room$/");
            (query, time)
        },
        HealthStatusDeviceEnum::Thermostat => {
            let time = String::from_str("15m");
            let query = String::from_str(
                "SELECT COUNT(temperature_current) AS values_count FROM boilers WHERE time > now() - ",
            ).concat(time.as_str());
            (query, time)
        },
    }
}

/// How running the count query of a device went.
#[derive(Debug)]
pub enum DeviceProbe {
    /// The query ran and returned this many rows.
    Rows(usize),
    /// No connection could be had or the query failed; the text describes why.
    Failed(String),
    /// The probe itself could not be run.
    Blocked,
}

/// The texts reported for the database and for the device's data, given how
/// the count query went and the window it looked back over.
pub open spec fn device_statuses_spec(probe: DeviceProbe, window: Seq<char>) -> (Seq<char>, Seq<char>) {
    match probe {
        DeviceProbe::Rows(n) => if n == 0 {
            ("ok"@, "error: no data found in the last "@ + window)
        } else {
            ("ok"@, "ok"@)
        },
        DeviceProbe::Failed(why) => ("error: "@ + why@, "unknown"@),
        DeviceProbe::Blocked => ("error: BlockingError"@, "unknown"@),
    }
}

/// The texts reported for the database and for the device's data.
pub fn device_statuses(probe: &DeviceProbe, window: &str) -> (res: (String, String))
    ensures
        (res.0@, res.1@) == device_statuses_spec(*probe, window@),
        (res.0@ == "ok"@) <==> (*probe is Rows),
        (res.1@ == "ok"@) <==> (*probe matches DeviceProbe::Rows(n) && n > 0),
        (*probe is Failed || *probe is Blocked) ==> res.1@ == "unknown"@,
        *probe matches DeviceProbe::Rows(n) && n == 0 ==> res.1@.subrange(
            res.1@.len() - window@.len(),
            res.1@.len() as int,
        ) == window@,
{
    proof {
        lemma_device_status_texts(*probe, window@);
    }
    match probe {
        DeviceProbe::Rows(n) => {
            if *n == 0 {
                (
                    String::from_str("ok"),
                    String::from_str("error: no data found in the last ").concat(window),
                )
            } else {
                (String::from_str("ok"), String::from_str("ok"))
            }
        },
        DeviceProbe::Failed(why) => (
            String::from_str("error: ").concat(why.as_str()),
            String::from_str("unknown"),
        ),
        DeviceProbe::Blocked => (String::from_str("error: BlockingError"), String::from_str("unknown")),
    }
}

/// Both texts of a device report are `ok` exactly when the query returned
/// at least one row.
pub proof fn lemma_device_ok_iff_rows(probe: DeviceProbe, window: Seq<char>)
    ensures
        (device_statuses_spec(probe, window).0 == "ok"@ && device_statuses_spec(probe, window).1
            == "ok"@) <==> (probe matches DeviceProbe::Rows(n) && n > 0),
{
    reveal_strlit("ok");
    reveal_strlit("error: ");
    reveal_strlit("unknown");
    reveal_strlit("error: BlockingError");
    reveal_strlit("error: no data found in the last ");
    let st = device_statuses_spec(probe, window);
    match probe {
        DeviceProbe::Rows(n) => {
            if n == 0 {
                assert(st.1.len() != "ok"@.len());
            }
        },
        DeviceProbe::Failed(why) => {
            assert(st.0.len() != "ok"@.len());
        },
        DeviceProbe::Blocked => {
            assert(st.0.len() != "ok"@.len());
        },
    }
}

/// The data-flow report of a device, given how its count query went. It is a
/// success exactly when the query returned at least one row; otherwise the
/// same report comes as a Service Unavailable error.
pub fn health_devices(
    version: Option<&str>,
    device: HealthStatusDeviceEnum,
    probe: DeviceProbe,
) -> (res: Result<HealthStatusDevice, HttpError<HealthStatusDevice>>)
    ensures
        carried(res).version@ == version_text_spec(version),
        version matches Some(v) ==> carried(res).version@ == v@,
        version is None ==> carried(res).version@.len() == 0,
        (carried(res).database_influx@ == "ok"@) <==> (probe is Rows),
        (carried(res).status@ == "ok"@) <==> (probe matches DeviceProbe::Rows(n) && n > 0),
        (probe is Failed || probe is Blocked) ==> carried(res).status@ == "unknown"@,
        (carried(res).database_influx@, carried(res).status@) == device_statuses_spec(
            probe,
            device_window_spec(device),
        ),
        res is Ok <==> (probe matches DeviceProbe::Rows(n) && n > 0),
{
    proof {
        lemma_version_text_exact(version);
        lemma_device_status_texts(probe, device_window_spec(device));
    }
    let (_query, time) = device_query(device);
    let (database_influx, status) = device_statuses(&probe, time.as_str());
    proof {
        lemma_device_ok_iff_rows(probe, device_window_spec(device));
    }
    let all_ok = is_ok_text(&database_influx) && is_ok_text(&status);
    let report = HealthStatusDevice { version: version_text(version), database_influx, status };
    if all_ok {
        Ok(report)
    } else {
        Err(HttpError::ServiceUnavailable(report))
    }
}

} // verus!

verus! {

/// The reported version is the given version text, whole; with no version
/// the text is empty.
pub proof fn lemma_version_text_exact(version: Option<&str>)
    ensures
        version matches Some(v) ==> version_text_spec(version) == v@,
        version is None ==> version_text_spec(version).len() == 0,
{
    reveal_strlit("");
}

/// A probe is reported `ok` exactly when the database answered; a failure is
/// reported as `error: ` followed by the reason, whole.
pub proof fn lemma_probe_status_texts(outcome: ProbeOutcome)
    ensures
        (probe_status_spec(outcome) == "ok"@) <==> (outcome is Reachable),
        outcome matches ProbeOutcome::Failed(why) ==> probe_status_spec(outcome).subrange(0, 7)
            == "error: "@ && probe_status_spec(outcome).subrange(7, probe_status_spec(outcome).len() as int)
            == why@,
{
    lemma_probe_ok_iff_reachable(outcome);
    reveal_strlit("error: ");
    if let ProbeOutcome::Failed(why) = outcome {
        assert(probe_status_spec(outcome).subrange(0, 7) =~= "error: "@);
        assert(probe_status_spec(outcome).subrange(7, probe_status_spec(outcome).len() as int) =~= why@);
    }
}

/// The database is reported `ok` exactly when the count query ran; the
/// device's data is reported `ok` exactly when the query returned at least one
/// row; a query that could not be run leaves the data `unknown`; an empty
/// result names the window it looked back over at the end of its message.
pub proof fn lemma_device_status_texts(probe: DeviceProbe, window: Seq<char>)
    ensures
        (device_statuses_spec(probe, window).0 == "ok"@) <==> (probe is Rows),
        (device_statuses_spec(probe, window).1 == "ok"@) <==> (probe matches DeviceProbe::Rows(n)
            && n > 0),
        (probe is Failed || probe is Blocked) ==> device_statuses_spec(probe, window).1
            == "unknown"@,
        probe matches DeviceProbe::Rows(n) && n == 0 ==> device_statuses_spec(probe, window).1.subrange(
            device_statuses_spec(probe, window).1.len() - window.len(),
            device_statuses_spec(probe, window).1.len() as int,
        ) == window,
{
    reveal_strlit("ok");
    reveal_strlit("error: ");
    reveal_strlit("unknown");
    reveal_strlit("error: BlockingError");
    reveal_strlit("error: no data found in the last ");
    let st = device_statuses_spec(probe, window);
    match probe {
        DeviceProbe::Rows(n) => {
            if n == 0 {
                assert(st.1.len() != "ok"@.len());
                assert(st.1.subrange(st.1.len() - window.len(), st.1.len() as int) =~= window);
            }
        },
        DeviceProbe::Failed(why) => {
            assert(st.0.len() != "ok"@.len());
            assert(st.1 != "ok"@);
        },
        DeviceProbe::Blocked => {
            assert(st.0.len() != "ok"@.len());
            assert(st.1 != "ok"@);
        },
    }
}

/// Weather data is looked for over the last three hours, the other devices'
/// data over the last fifteen minutes; each count query ends with its window
/// or names it right after the time condition.
pub proof fn lemma_device_windows(device: HealthStatusDeviceEnum)
    ensures
        device == HealthStatusDeviceEnum::Weather ==> device_window_spec(device) == "3h"@,
        device != HealthStatusDeviceEnum::Weather ==> device_window_spec(device) == "15m"@,
        device == HealthStatusDeviceEnum::Weather ==> device_query_spec(device)
            == "SELECT COUNT(apparentTemperature) AS values_count FROM weather WHERE time > now() - 3h"@,
        device == HealthStatusDeviceEnum::Thermostat ==> device_query_spec(device)
            == "SELECT COUNT(temperature_current) AS values_count FROM boilers WHERE time > now() - 15m"@,
        device == HealthStatusDeviceEnum::MasterBedroom ==> device_query_spec(device)
            == "SELECT COUNT(temperature) AS values_count FROM sensors WHERE time > now() - 15m AND \"location\" =~ /^Master Bedroom$/"@,
        device == HealthStatusDeviceEnum::LivingRoom ==> device_query_spec(device)
            == "SELECT COUNT(temperature) AS values_count FROM sensors WHERE time > now() - 15m AND \"location\" =~ /^Living Room$/"@,
{
    reveal_strlit("3h");
    reveal_strlit("15m");
    reveal_strlit("SELECT COUNT(apparentTemperature) AS values_count FROM weather WHERE time > now() - ");
    reveal_strlit("SELECT COUNT(apparentTemperature) AS values_count FROM weather WHERE time > now() - 3h");
    reveal_strlit("SELECT COUNT(temperature_current) AS values_count FROM boilers WHERE time > now() - ");
    reveal_strlit("SELECT COUNT(temperature_current) AS values_count FROM boilers WHERE time > now() - 15m");
    reveal_strlit("SELECT COUNT(temperature) AS values_count FROM sensors WHERE time > now() - ");
    reveal_strlit(" AND \"location\" =~ /^Master Bedroom$/");
    reveal_strlit(" AND \"location\" =~ /^Living Room$/");
    reveal_strlit("SELECT COUNT(temperature) AS values_count FROM sensors WHERE time > now() - 15m AND \"location\" =~ /^Master Bedroom$/");
    reveal_strlit("SELECT COUNT(temperature) AS values_count FROM sensors WHERE time > now() - 15m AND \"location\" =~ /^Living Room$/");
    assert(device_query_spec(device) =~= device_query_spec(device));
    match device {
        HealthStatusDeviceEnum::Weather => {
            assert(device_query_spec(device) =~= "SELECT COUNT(apparentTemperature) AS values_count FROM weather WHERE time > now() - 3h"@);
        },
        HealthStatusDeviceEnum::Thermostat => {
            assert(device_query_spec(device) =~= "SELECT COUNT(temperature_current) AS values_count FROM boilers WHERE time > now() - 15m"@);
        },
        HealthStatusDeviceEnum::MasterBedroom => {
            assert(device_query_spec(device) =~= "SELECT COUNT(temperature) AS values_count FROM sensors WHERE time > now() - 15m AND \"location\" =~ /^Master Bedroom$/"@);
        },
        HealthStatusDeviceEnum::LivingRoom => {
            assert(device_query_spec(device) =~= "SELECT COUNT(temperature) AS values_count FROM sensors WHERE time > now() - 15m AND \"location\" =~ /^Living Room$/"@);
        },
    }
}

} // verus!

verus! {

/// Two health reports are equal exactly when all four of their texts are.
pub proof fn lemma_health_status_eq(a: HealthStatus, b: HealthStatus)
    ensures
        PartialEqSpec::eq_spec(&a, &b) <==> (a.version@ == b.version@ && a.api@ == b.api@ && a.database_postgres@
            == b.database_postgres@ && a.database_influx@ == b.database_influx@),
        PartialEqSpec::eq_spec(&a, &b) == PartialEqSpec::eq_spec(&b, &a),
        PartialEqSpec::eq_spec(&a, &a),
{
}

/// Two device reports are equal exactly when all three of their texts are.
pub proof fn lemma_health_status_device_eq(a: HealthStatusDevice, b: HealthStatusDevice)
    ensures
        PartialEqSpec::eq_spec(&a, &b) <==> (a.version@ == b.version@ && a.database_influx@ == b.database_influx@
            && a.status@ == b.status@),
        PartialEqSpec::eq_spec(&a, &b) == PartialEqSpec::eq_spec(&b, &a),
        PartialEqSpec::eq_spec(&a, &a),
{
}

} // verus!
