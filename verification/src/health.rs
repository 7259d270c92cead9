//! The health report of the service.
use vstd::prelude::*;
use vstd::string::*;
use crate::metrics::MetricsSnapshot;

verus! {

/// The RFC 3339 text of the moment `secs` seconds and `nanos` nanoseconds
/// after the epoch, in UTC, as chrono writes it; `None` where chrono has no
/// such moment.
pub uninterp spec fn rfc3339_utc(secs: i64, nanos: u32) -> Option<Seq<char>>;

/// Calls `chrono::DateTime::from_timestamp` and, on the moment it gives,
/// `chrono::DateTime::to_rfc3339`. Neither reads a clock, a time zone or a
/// locale, so the text is a function of the two numbers; the contract
/// gives that function its name and claims nothing else of it.
#[verifier::external_body]
fn format_rfc3339_utc(secs: i64, nanos: u32) -> (text: Option<String>)
    ensures
        rfc3339_utc(secs, nanos) == match text {
            Some(written) => Some(written@),
            None => None,
        },
{
    match chrono::DateTime::from_timestamp(secs, nanos) {
        Some(moment) => Some(moment.to_rfc3339()),
        None => None,
    }
}

/// What the health endpoint reports.
#[derive(Clone, Debug)]
pub struct HealthStatus {
    pub status: String,
    pub service: String,
    pub version: String,
    pub timestamp: String,
    pub uptime_seconds: u64,
}

/// The name under which the service reports.
pub open spec fn service_name() -> Seq<char> {
    "japanese-address-parser-api"@
}

/// The status of a service that answers.
pub open spec fn healthy() -> Seq<char> {
    "healthy"@
}

/// The health report of a service in `version` whose registry was made at
/// `start_time`, at the moment `now` (both in seconds since the epoch),
/// with `timestamp` as the text of that moment.
pub fn health_status(start_time: u64, version: &str, timestamp: String, now: u64) -> (report:
    HealthStatus)
    ensures
        report.status@ == healthy(),
        report.service@ == service_name(),
        report.version@ == version@,
        report.timestamp@ == timestamp@,
        report.uptime_seconds == if now >= start_time {
            now - start_time
        } else {
            0
        },
{
    HealthStatus {
        status: String::from_str("healthy"),
        service: String::from_str("japanese-address-parser-api"),
        version: String::from_str(version),
        timestamp,
        uptime_seconds: if now >= start_time {
            now - start_time
        } else {
            0
        },
    }
}

/// The health report at the moment `now` seconds and `nanos` nanoseconds
/// after the epoch, stamped with the RFC 3339 text of that moment; `None`
/// where the moment has no such text.
pub fn health(snapshot: &MetricsSnapshot, version: &str, now: u64, nanos: u32) -> (report: Option<
    HealthStatus,
>)
    ensures
        match report {
            Some(status) => {
                &&& now <= i64::MAX
                &&& rfc3339_utc(now as i64, nanos) == Some(status.timestamp@)
                &&& status.status@ == healthy()
                &&& status.service@ == service_name()
                &&& status.version@ == version@
                &&& status.uptime_seconds == snapshot@.uptime_seconds(now)
            },
            None => now > i64::MAX || rfc3339_utc(now as i64, nanos) is None,
        },
{
    if now > i64::MAX as u64 {
        return None;
    }
    match format_rfc3339_utc(now as i64, nanos) {
        Some(timestamp) => Some(health_status(snapshot.start_time, version, timestamp, now)),
        None => None,
    }
}

} // verus!
