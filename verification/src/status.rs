//! System status reports: per-service summaries of a dependency health check,
//! meter statistics, and the readiness and liveness probes.

use vstd::prelude::*;
use crate::clock::{monotonic_now, whole_seconds_since};
use std::time::Instant;
use crate::text::str_eq;

verus! {

/// Outcome of checking one dependency.
#[derive(Debug, Clone, Copy, PartialEq, Eq, Structural)]
pub enum HealthCheckStatus {
    Healthy,
    Degraded,
    Unhealthy,
    Unknown,
}

/// One dependency as reported by the dependency health probes.
#[derive(Debug, Clone)]
pub struct DependencyHealth {
    pub name: String,
    pub status: HealthCheckStatus,
    pub response_time_ms: Option<u64>,
    pub error_message: Option<String>,
    pub details: Option<String>,
}

/// A full health check: overall status and every dependency.
#[derive(Debug, Clone)]
pub struct DetailedHealthStatus {
    /// `"healthy"`, `"degraded"` or `"unhealthy"`.
    pub status: String,
    pub version: String,
    pub uptime_seconds: u64,
    /// RFC 3339 time of the check.
    pub timestamp: String,
    pub dependencies: Vec<DependencyHealth>,
}

/// Individual service health.
#[derive(Debug, Clone)]
pub struct ServiceHealth {
    pub status: String,
    pub latency_ms: Option<u64>,
    pub message: Option<String>,
}

/// Status of individual services.
#[derive(Debug, Clone)]
pub struct ServiceStatus {
    pub database: ServiceHealth,
    pub email: ServiceHealth,
    pub blockchain: ServiceHealth,
}

/// Comprehensive health check response.
#[derive(Debug, Clone)]
pub struct HealthResponse {
    pub status: String,
    pub version: String,
    pub uptime_seconds: u64,
    pub timestamp: String,
    pub services: ServiceStatus,
}

/// Simple status response for backward compatibility.
#[derive(Debug, Clone)]
pub struct StatusResponse {
    pub status: String,
    pub version: String,
    pub uptime: String,
}

#[derive(Debug, Clone)]
pub struct MeterCounts {
    pub total: i64,
    pub pending: i64,
    pub verified: i64,
    pub active: i64,
}

#[derive(Debug, Clone)]
pub struct MeterStatusResponse {
    pub status: String,
    pub database_latency_ms: Option<u64>,
    pub meter_counts: MeterCounts,
}

#[derive(Debug, Clone)]
pub struct CheckResult {
    pub name: String,
    pub passed: bool,
}

#[derive(Debug, Clone)]
pub struct ReadinessResponse {
    pub ready: bool,
    pub checks: Vec<CheckResult>,
}

#[derive(Debug, Clone)]
pub struct LivenessResponse {
    pub alive: bool,
    pub uptime_seconds: u64,
}

/// The three services summarised in a status report.
#[derive(Debug, Clone, Copy, PartialEq, Eq, Structural)]
pub enum ReportedService {
    Database,
    Email,
    Blockchain,
}

/// Name under which the dependency health probes report a service.
pub open spec fn dependency_name(s: ReportedService) -> Seq<char> {
    match s {
        ReportedService::Database => "PostgreSQL"@,
        ReportedService::Email => "Email Service"@,
        ReportedService::Blockchain => "Solana RPC"@,
    }
}

/// Status text of a service; a degraded email service is reported as disabled.
pub open spec fn status_label(s: ReportedService, st: HealthCheckStatus) -> Seq<char> {
    match st {
        HealthCheckStatus::Healthy => "healthy"@,
        HealthCheckStatus::Degraded => if s == ReportedService::Email { "disabled"@ } else { "degraded"@ },
        HealthCheckStatus::Unhealthy => "unhealthy"@,
        HealthCheckStatus::Unknown => "unknown"@,
    }
}

/// Every service reported unhealthy is labelled `"unhealthy"`, and a service is
/// labelled `"healthy"` exactly when it was reported healthy.
pub proof fn law_status_labels(s: ReportedService, st: HealthCheckStatus)
    ensures
        st == HealthCheckStatus::Unhealthy ==> status_label(s, st) == "unhealthy"@,
        status_label(s, st) == "healthy"@ <==> st == HealthCheckStatus::Healthy,
{
    reveal_strlit("healthy");
    reveal_strlit("unhealthy");
    reveal_strlit("degraded");
    reveal_strlit("disabled");
    reveal_strlit("unknown");
    assert("healthy"@[0] != "unhealthy"@[0]);
    assert("healthy"@[0] != "degraded"@[0]);
    assert("healthy"@[0] != "disabled"@[0]);
    assert("healthy"@[0] != "unknown"@[0]);
}

/// Whether `h` is the summary of service `s` given by dependency `d`: its
/// status label, and latency and error message (for email: no latency, and
/// the details as message).
pub open spec fn summarises(h: ServiceHealth, s: ReportedService, d: DependencyHealth) -> bool {
    &&& h.status@ == status_label(s, d.status)
    &&& h.latency_ms == (if s == ReportedService::Email { None } else { d.response_time_ms })
    &&& h.message == (if s == ReportedService::Email { d.details } else { d.error_message })
}

/// Whether `h` is the summary of a service with no report: status unknown,
/// no latency, no message.
pub open spec fn unknown_summary(h: ServiceHealth) -> bool {
    h.status@ == "unknown"@ && h.latency_ms is None && h.message is None
}

/// Position of the last dependency named `name`, if any.
pub open spec fn last_named(deps: Seq<DependencyHealth>, name: Seq<char>) -> Option<int>
    decreases deps.len(),
{
    if deps.len() == 0 {
        None
    } else if deps.last().name@ == name {
        Some(deps.len() - 1)
    } else {
        last_named(deps.drop_last(), name)
    }
}

/// Position of the first dependency named `name`, if any.
pub open spec fn first_named(deps: Seq<DependencyHealth>, name: Seq<char>) -> Option<int>
    decreases deps.len(),
{
    if deps.len() == 0 {
        None
    } else if deps[0].name@ == name {
        Some(0)
    } else {
        match first_named(deps.drop_first(), name) {
            Some(i) => Some(i + 1),
            None => None,
        }
    }
}

/// The summary of service `s` in a report over `deps`: from its last report,
/// unknown when it was not reported.
pub open spec fn reported_summary(h: ServiceHealth, s: ReportedService, deps: Seq<DependencyHealth>) -> bool {
    match last_named(deps, dependency_name(s)) {
        Some(i) => summarises(h, s, deps[i]),
        None => unknown_summary(h),
    }
}

proof fn lemma_last_named_bounds(deps: Seq<DependencyHealth>, name: Seq<char>)
    ensures
        match last_named(deps, name) {
            Some(i) => 0 <= i < deps.len() && deps[i].name@ == name,
            None => true,
        },
    decreases deps.len(),
{
    if deps.len() > 0 && deps.last().name@ != name {
        lemma_last_named_bounds(deps.drop_last(), name);
    }
}

proof fn lemma_first_named_bounds(deps: Seq<DependencyHealth>, name: Seq<char>)
    ensures
        match first_named(deps, name) {
            Some(i) => 0 <= i < deps.len() && deps[i].name@ == name
                && forall|k: int| 0 <= k < i ==> deps[k].name@ != name,
            None => forall|k: int| 0 <= k < deps.len() ==> deps[k].name@ != name,
        },
    decreases deps.len(),
{
    if deps.len() > 0 && deps[0].name@ != name {
        lemma_first_named_bounds(deps.drop_first(), name);
        match first_named(deps.drop_first(), name) {
            Some(i) => {
                assert forall|k: int| 0 <= k < i + 1 implies deps[k].name@ != name by {
                    if k > 0 { assert(deps[k] == deps.drop_first()[k - 1]); }
                }
            }
            None => {
                assert forall|k: int| 0 <= k < deps.len() implies deps[k].name@ != name by {
                    if k > 0 { assert(deps[k] == deps.drop_first()[k - 1]); }
                }
            }
        }
    }
}

/// A service status with no report.
fn unknown_service() -> (h: ServiceHealth)
    ensures unknown_summary(h),
{
    ServiceHealth { status: String::from_str("unknown"), latency_ms: None, message: None }
}

/// The status label of service `s` for status `st`.
pub fn service_status_label(s: ReportedService, st: HealthCheckStatus) -> (l: String)
    ensures
        l@ == status_label(s, st),
        st == HealthCheckStatus::Unhealthy ==> l@ == "unhealthy"@,
        l@ == "healthy"@ <==> st == HealthCheckStatus::Healthy,
{
    proof { law_status_labels(s, st); }
    match st {
        HealthCheckStatus::Healthy => String::from_str("healthy"),
        HealthCheckStatus::Degraded => {
            if s == ReportedService::Email { String::from_str("disabled") } else { String::from_str("degraded") }
        },
        HealthCheckStatus::Unhealthy => String::from_str("unhealthy"),
        HealthCheckStatus::Unknown => String::from_str("unknown"),
    }
}

/// The name under which service `s` is reported.
fn service_dependency_name(s: ReportedService) -> (n: &'static str)
    ensures n@ == dependency_name(s),
{
    match s {
        ReportedService::Database => "PostgreSQL",
        ReportedService::Email => "Email Service",
        ReportedService::Blockchain => "Solana RPC",
    }
}

/// The summary of service `s` taken from dependency `d`.
fn summarise(s: ReportedService, d: &DependencyHealth) -> (h: ServiceHealth)
    ensures summarises(h, s, *d),
{
    let status = service_status_label(s, d.status);
    if s == ReportedService::Email {
        ServiceHealth { status, latency_ms: None, message: d.details.clone() }
    } else {
        ServiceHealth { status, latency_ms: d.response_time_ms, message: d.error_message.clone() }
    }
}

/// The summary of service `s` over the dependencies of a health check: the
/// last report of the service wins.
pub fn summarise_service(s: ReportedService, deps: &Vec<DependencyHealth>) -> (h: ServiceHealth)
    ensures reported_summary(h, s, deps@),
{
    let name = service_dependency_name(s);
    let mut h = unknown_service();
    let mut i: usize = 0;
    proof { assert(deps@.take(0) =~= Seq::<DependencyHealth>::empty()); }
    while i < deps.len()
        invariant
            i <= deps.len(),
            name@ == dependency_name(s),
            reported_summary(h, s, deps@.take(i as int)),
        decreases deps.len() - i,
    {
        let ghost prefix = deps@.take(i + 1);
        proof {
            assert(prefix.drop_last() =~= deps@.take(i as int));
            assert(prefix.last() == deps@[i as int]);
            lemma_last_named_bounds(deps@.take(i as int), dependency_name(s));
        }
        if str_eq(deps[i].name.as_str(), name) {
            h = summarise(s, &deps[i]);
        } else {
            proof {
                match last_named(deps@.take(i as int), dependency_name(s)) {
                    Some(j) => { assert(prefix[j] == deps@.take(i as int)[j]); }
                    None => {}
                }
            }
        }
        i = i + 1;
    }
    proof { assert(deps@.take(deps.len() as int) =~= deps@); }
    h
}

/// The status report of a health check (the comprehensive `/status` answer).
pub fn system_status_from(health: DetailedHealthStatus) -> (r: HealthResponse)
    ensures
        r.status == health.status,
        r.version == health.version,
        r.uptime_seconds == health.uptime_seconds,
        r.timestamp == health.timestamp,
        reported_summary(r.services.database, ReportedService::Database, health.dependencies@),
        reported_summary(r.services.email, ReportedService::Email, health.dependencies@),
        reported_summary(r.services.blockchain, ReportedService::Blockchain, health.dependencies@),
{
    let database = summarise_service(ReportedService::Database, &health.dependencies);
    let email = summarise_service(ReportedService::Email, &health.dependencies);
    let blockchain = summarise_service(ReportedService::Blockchain, &health.dependencies);
    HealthResponse {
        status: health.status,
        version: health.version,
        uptime_seconds: health.uptime_seconds,
        timestamp: health.timestamp,
        services: ServiceStatus { database, email, blockchain },
    }
}

/// Position of the first database dependency.
fn find_database(deps: &Vec<DependencyHealth>) -> (r: Option<usize>)
    ensures
        match r {
            Some(i) => i < deps@.len() && first_named(deps@, "PostgreSQL"@) == Some(i as int),
            None => first_named(deps@, "PostgreSQL"@) is None,
        },
{
    let mut i: usize = 0;
    proof { lemma_first_named_bounds(deps@, "PostgreSQL"@); }
    while i < deps.len()
        invariant
            i <= deps.len(),
            forall|k: int| 0 <= k < i ==> deps@[k].name@ != "PostgreSQL"@,
        decreases deps.len() - i,
    {
        if str_eq(deps[i].name.as_str(), "PostgreSQL") {
            proof {
                assert(deps@[i as int].name@ == "PostgreSQL"@);
                lemma_first_named_bounds(deps@, "PostgreSQL"@);
                match first_named(deps@, "PostgreSQL"@) {
                    Some(j) => {
                        if j < i {
                            assert(deps@[j].name@ != "PostgreSQL"@);
                        } else if j > i {
                            assert(deps@[i as int].name@ != "PostgreSQL"@);
                        }
                    }
                    None => {
                        assert(deps@[i as int].name@ != "PostgreSQL"@);
                    }
                }
            }
            return Some(i);
        }
        i = i + 1;
    }
    proof {
        match first_named(deps@, "PostgreSQL"@) {
            Some(j) => { assert(deps@[j].name@ == "PostgreSQL"@); }
            None => {}
        }
    }
    None
}

/// Meter counts from the storage query; zeros when the query gave nothing.
pub fn meter_counts_from(row: Option<(i64, i64, i64, i64)>) -> (c: MeterCounts)
    ensures
        match row {
            Some((t, p, v, a)) => c.total == t && c.pending == p && c.verified == v && c.active == a,
            None => c.total == 0 && c.pending == 0 && c.verified == 0 && c.active == 0,
        },
{
    match row {
        Some((total, pending, verified, active)) => MeterCounts { total, pending, verified, active },
        None => MeterCounts { total: 0, pending: 0, verified: 0, active: 0 },
    }
}

/// The meter service report: database status and latency from the first
/// database report (`"unknown"` without one), and the meter counts.
pub fn meter_status_from(health: &DetailedHealthStatus, meter_counts: MeterCounts) -> (r: MeterStatusResponse)
    ensures
        r.meter_counts == meter_counts,
        match first_named(health.dependencies@, "PostgreSQL"@) {
            Some(i) => {
                &&& r.status@ == (if health.dependencies@[i].status == HealthCheckStatus::Healthy { "healthy"@ } else { "unhealthy"@ })
                &&& r.database_latency_ms == health.dependencies@[i].response_time_ms
            },
            None => r.status@ == "unknown"@ && r.database_latency_ms is None,
        },
{
    match find_database(&health.dependencies) {
        Some(i) => {
            let d = &health.dependencies[i];
            let status = if d.status == HealthCheckStatus::Healthy {
                String::from_str("healthy")
            } else {
                String::from_str("unhealthy")
            };
            MeterStatusResponse { status, database_latency_ms: d.response_time_ms, meter_counts }
        },
        None => MeterStatusResponse {
            status: String::from_str("unknown"),
            database_latency_ms: None,
            meter_counts,
        },
    }
}

/// The readiness probe: ready when the overall status is healthy; the
/// database check passes when the first database report is healthy; the
/// overall check passes when the status is healthy or degraded.
pub fn readiness_from(health: &DetailedHealthStatus) -> (r: ReadinessResponse)
    ensures
        r.ready == (health.status@ == "healthy"@),
        r.checks@.len() == 2,
        r.checks@[0].name@ == "database"@,
        r.checks@[0].passed == (match first_named(health.dependencies@, "PostgreSQL"@) {
            Some(i) => health.dependencies@[i].status == HealthCheckStatus::Healthy,
            None => false,
        }),
        r.checks@[1].name@ == "overall"@,
        r.checks@[1].passed == (health.status@ == "healthy"@ || health.status@ == "degraded"@),
{
    let db_passed = match find_database(&health.dependencies) {
        Some(i) => health.dependencies[i].status == HealthCheckStatus::Healthy,
        None => false,
    };
    let healthy = str_eq(health.status.as_str(), "healthy");
    let degraded = str_eq(health.status.as_str(), "degraded");
    let mut checks: Vec<CheckResult> = Vec::new();
    checks.push(CheckResult { name: String::from_str("database"), passed: db_passed });
    checks.push(CheckResult { name: String::from_str("overall"), passed: healthy || degraded });
    ReadinessResponse { ready: healthy, checks }
}

/// When the service started counting its uptime: at the first uptime query.
pub struct UptimeClock {
    start: Option<Instant>,
}

impl UptimeClock {
    /// Whether the uptime count has started.
    pub closed spec fn started(&self) -> bool {
        self.start is Some
    }

    /// A clock that starts counting at the first query.
    pub fn new() -> (c: Self)
        ensures !c.started(),
    {
        UptimeClock { start: None }
    }
}

/// Whole seconds of uptime by the monotonic clock, counted from the first
/// query: the first query starts the count, and later queries keep it.
pub fn get_uptime_seconds(clock: &mut UptimeClock) -> (s: u64)
    ensures
        final(clock).started(),
        old(clock).started() ==> *final(clock) == *old(clock),
{
    if clock.start.is_none() {
        clock.start = Some(monotonic_now());
    }
    match &clock.start {
        Some(start) => whole_seconds_since(start),
        None => 0,
    }
}

/// The liveness probe: always alive, with the given uptime.
pub fn liveness(uptime_seconds: u64) -> (r: LivenessResponse)
    ensures r.alive, r.uptime_seconds == uptime_seconds,
{
    LivenessResponse { alive: true, uptime_seconds }
}

/// In a system status, a service whose last report is unhealthy is shown as
/// `"unhealthy"`, and a service is shown as `"healthy"` only when its last
/// report is healthy.
pub proof fn law_unhealthy_service_reported(h: ServiceHealth, s: ReportedService, deps: Seq<DependencyHealth>)
    requires
        reported_summary(h, s, deps),
    ensures
        last_named(deps, dependency_name(s)) matches Some(i) && deps[i].status == HealthCheckStatus::Unhealthy
            ==> h.status@ == "unhealthy"@,
        h.status@ == "healthy"@ ==> (last_named(deps, dependency_name(s)) matches Some(i)
            && deps[i].status == HealthCheckStatus::Healthy),
{
    reveal_strlit("healthy");
    reveal_strlit("unknown");
    assert("healthy"@[0] != "unknown"@[0]);
    match last_named(deps, dependency_name(s)) {
        Some(i) => { law_status_labels(s, deps[i].status); },
        None => {},
    }
}

} // verus!
