//! Service health summary: the overall status and one check per dependency.

use vstd::prelude::*;
use crate::clock::utc_now_millis;

verus! {

/// Result of checking one dependency.
#[derive(Debug, Clone)]
pub struct ServiceHealth {
    pub name: String,
    /// `"healthy"` or `"unhealthy"`.
    pub status: String,
    pub response_time_ms: Option<u64>,
    /// Unix time of the check, in milliseconds.
    pub last_check: i64,
    pub error_message: Option<String>,
}

/// Health of the service and of the dependencies checked so far.
#[derive(Debug, Clone)]
pub struct HealthStatus {
    /// `"healthy"`, or `"degraded"` once a dependency was found unhealthy.
    pub status: String,
    /// Unix time of the report, in milliseconds.
    pub timestamp: i64,
    pub version: String,
    pub environment: String,
    pub dependencies: Vec<ServiceHealth>,
}

/// The status text of a dependency check.
pub open spec fn check_status_text(is_healthy: bool) -> Seq<char> {
    if is_healthy { "healthy"@ } else { "unhealthy"@ }
}

/// A report whose overall status agrees with its dependency checks: healthy
/// exactly when every dependency is healthy, degraded otherwise.
pub open spec fn status_consistent(h: HealthStatus) -> bool {
    let all_healthy = forall|i: int| 0 <= i < h.dependencies@.len() ==> #[trigger] h.dependencies@[i].status@ == "healthy"@;
    &&& all_healthy ==> h.status@ == "healthy"@
    &&& !all_healthy ==> h.status@ == "degraded"@
    &&& forall|i: int| 0 <= i < h.dependencies@.len() ==> (#[trigger] h.dependencies@[i].status@ == "healthy"@ || h.dependencies@[i].status@ == "unhealthy"@)
}

/// The deployment environment name, `"development"` when none is configured.
pub fn environment_or_default(configured: Option<String>) -> (e: String)
    ensures
        e@ == match configured { Some(c) => c@, None => "development"@ },
{
    match configured {
        Some(c) => c,
        None => String::from_str("development"),
    }
}

/// One dependency check, as recorded: the dependency's name, whether it was
/// healthy, its response time and its error.
pub struct CheckOutcome {
    pub name: Seq<char>,
    pub is_healthy: bool,
    pub response_time: Option<u64>,
    pub error: Option<String>,
}

/// Whether `d` records the check `c`.
pub open spec fn records(d: ServiceHealth, c: CheckOutcome) -> bool {
    &&& d.name@ == c.name
    &&& d.status@ == check_status_text(c.is_healthy)
    &&& d.response_time_ms == c.response_time
    &&& d.error_message == c.error
}

/// `after` is `before` with one more dependency check `c`.
pub open spec fn records_check(before: HealthStatus, after: HealthStatus, c: CheckOutcome) -> bool {
    &&& after.dependencies@.len() == before.dependencies@.len() + 1
    &&& after.dependencies@.drop_last() == before.dependencies@
    &&& records(after.dependencies@.last(), c)
    &&& after.status@ == (if c.is_healthy { before.status@ } else { "degraded"@ })
}

impl HealthStatus {
    /// A healthy report, taken now, with no dependency checked yet.
    pub fn new(version: String, environment: String) -> (h: Self)
        ensures
            h.status@ == "healthy"@,
            h.version == version,
            h.environment == environment,
            h.dependencies@.len() == 0,
            status_consistent(h),
    {
        Self {
            status: String::from_str("healthy"),
            timestamp: utc_now_millis(),
            version,
            environment,
            dependencies: Vec::new(),
        }
    }

    /// Records the check of one dependency; an unhealthy dependency degrades the
    /// overall status.
    pub fn add_dependency_check(&mut self, name: &str, is_healthy: bool, response_time: Option<u64>, error: Option<String>)
        ensures
            final(self).dependencies@.len() == old(self).dependencies@.len() + 1,
            final(self).dependencies@.drop_last() == old(self).dependencies@,
            final(self).dependencies@.last().name@ == name@,
            final(self).dependencies@.last().status@ == check_status_text(is_healthy),
            final(self).dependencies@.last().response_time_ms == response_time,
            final(self).dependencies@.last().error_message == error,
            final(self).status@ == (if is_healthy { old(self).status@ } else { "degraded"@ }),
            records_check(*old(self), *final(self),
                CheckOutcome { name: name@, is_healthy, response_time, error }),
            final(self).timestamp == old(self).timestamp,
            final(self).version == old(self).version,
            final(self).environment == old(self).environment,
    {
        let status = if is_healthy { String::from_str("healthy") } else { String::from_str("unhealthy") };
        self.dependencies.push(ServiceHealth {
            name: String::from_str(name),
            status,
            response_time_ms: response_time,
            last_check: utc_now_millis(),
            error_message: error,
        });
        if !is_healthy {
            self.status = String::from_str("degraded");
        }
        proof {
            assert(self.dependencies@.drop_last() =~= old(self).dependencies@);
        }
    }
}

/// Adding dependency checks to a consistent report keeps it consistent: the
/// overall status is degraded exactly when some checked dependency is
/// unhealthy.
pub proof fn law_status_tracks_dependencies(before: HealthStatus, after: HealthStatus, is_healthy: bool)
    requires
        status_consistent(before),
        after.dependencies@.drop_last() == before.dependencies@,
        after.dependencies@.len() == before.dependencies@.len() + 1,
        after.dependencies@.last().status@ == check_status_text(is_healthy),
        after.status@ == (if is_healthy { before.status@ } else { "degraded"@ }),
    ensures
        status_consistent(after),
{
    reveal_strlit("healthy");
    reveal_strlit("unhealthy");
    reveal_strlit("degraded");
    let n = before.dependencies@.len();
    assert forall|i: int| 0 <= i < n implies after.dependencies@[i] == before.dependencies@[i] by {
        assert(after.dependencies@.drop_last()[i] == after.dependencies@[i]);
    }
    assert(after.dependencies@.last() == after.dependencies@[n as int]);
    assert("healthy"@.len() != "unhealthy"@.len());
    if !is_healthy {
        assert(after.dependencies@[n as int].status@ != "healthy"@);
    } else {
        let all_before = forall|i: int| 0 <= i < n ==> #[trigger] before.dependencies@[i].status@ == "healthy"@;
        if !all_before {
            let j = choose|j: int| 0 <= j < n && !(#[trigger] before.dependencies@[j].status@ == "healthy"@);
            assert(after.dependencies@[j] == before.dependencies@[j]);
        }
    }
}

proof fn lemma_checks_prefix(reports: Seq<HealthStatus>, checks: Seq<CheckOutcome>, k: int)
    requires
        reports.len() == checks.len() + 1,
        reports[0].status@ == "healthy"@,
        reports[0].dependencies@.len() == 0,
        forall|i: int| 0 <= i < checks.len() ==> #[trigger] records_check(reports[i], reports[i + 1], checks[i]),
        0 <= k <= checks.len(),
    ensures
        reports[k].dependencies@.len() == k,
        forall|i: int| 0 <= i < k ==> records(#[trigger] reports[k].dependencies@[i], checks[i]),
        reports[k].status@ == (if forall|i: int| 0 <= i < k ==> #[trigger] checks[i].is_healthy { "healthy"@ } else { "degraded"@ }),
    decreases k,
{
    if k > 0 {
        lemma_checks_prefix(reports, checks, k - 1);
        assert(records_check(reports[k - 1], reports[k], checks[k - 1]));
        let before = reports[k - 1].dependencies@;
        let after = reports[k].dependencies@;
        assert forall|i: int| 0 <= i < k implies records(#[trigger] after[i], checks[i]) by {
            if i < k - 1 {
                assert(after.drop_last()[i] == after[i]);
                assert(before[i] == after[i]);
                assert(records(reports[k - 1].dependencies@[i], checks[i]));
            } else {
                assert(after.last() == after[i]);
            }
        }
        if !checks[k - 1].is_healthy {
            assert(!(forall|i: int| 0 <= i < k ==> #[trigger] checks[i].is_healthy));
        } else if !(forall|i: int| 0 <= i < k - 1 ==> #[trigger] checks[i].is_healthy) {
            let j = choose|j: int| 0 <= j < k - 1 && !#[trigger] checks[j].is_healthy;
            assert(!(forall|i: int| 0 <= i < k ==> #[trigger] checks[i].is_healthy));
        } else {
            assert forall|i: int| 0 <= i < k implies #[trigger] checks[i].is_healthy by {
                if i < k - 1 { } else { }
            }
        }
    }
}

/// A report that starts healthy with no dependency and then records the
/// checks `checks[0]`, `checks[1]`, ... in turn lists one dependency per
/// check, in order, each with the check's name, status, response time and
/// error, and is healthy
/// exactly when every check was healthy, degraded otherwise (once degraded,
/// it never becomes healthy again).
pub proof fn law_health_over_checks(reports: Seq<HealthStatus>, checks: Seq<CheckOutcome>)
    requires
        reports.len() == checks.len() + 1,
        reports[0].status@ == "healthy"@,
        reports[0].dependencies@.len() == 0,
        forall|i: int| 0 <= i < checks.len() ==> #[trigger] records_check(reports[i], reports[i + 1], checks[i]),
    ensures
        reports.last().dependencies@.len() == checks.len(),
        forall|i: int| 0 <= i < checks.len() ==> records(#[trigger] reports.last().dependencies@[i], checks[i]),
        reports.last().status@ == (if forall|i: int| 0 <= i < checks.len() ==> #[trigger] checks[i].is_healthy { "healthy"@ } else { "degraded"@ }),
{
    lemma_checks_prefix(reports, checks, checks.len() as int);
}

} // verus!
