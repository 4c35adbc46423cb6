use api_gateway::health::{environment_or_default, HealthStatus};
use api_gateway::status::{
    get_uptime_seconds, UptimeClock,
    liveness, meter_counts_from, meter_status_from, readiness_from, system_status_from, DependencyHealth,
    DetailedHealthStatus, HealthCheckStatus,
};

fn dep(name: &str, status: HealthCheckStatus, ms: Option<u64>) -> DependencyHealth {
    DependencyHealth {
        name: name.to_string(),
        status,
        response_time_ms: ms,
        error_message: Some(format!("{} error", name)),
        details: Some(format!("{} details", name)),
    }
}

fn report(status: &str, deps: Vec<DependencyHealth>) -> DetailedHealthStatus {
    DetailedHealthStatus {
        status: status.to_string(),
        version: "1.2.3".to_string(),
        uptime_seconds: 42,
        timestamp: "2024-01-01T00:00:00+00:00".to_string(),
        dependencies: deps,
    }
}

#[test]
fn health_status_degrades_on_unhealthy_dependency() {
    let mut h = HealthStatus::new("0.1.0".to_string(), environment_or_default(None));
    assert_eq!(h.status, "healthy");
    assert_eq!(h.environment, "development");
    h.add_dependency_check("database", true, Some(3), None);
    assert_eq!(h.status, "healthy");
    assert_eq!(h.dependencies[0].status, "healthy");
    h.add_dependency_check("redis", false, None, Some("timeout".to_string()));
    assert_eq!(h.status, "degraded");
    assert_eq!(h.dependencies[1].status, "unhealthy");
    h.add_dependency_check("cache", true, None, None);
    assert_eq!(h.status, "degraded");
    assert_eq!(h.dependencies.len(), 3);
    assert_eq!(environment_or_default(Some("production".to_string())), "production");
}

#[test]
fn system_status_maps_each_service() {
    let h = report(
        "degraded",
        vec![
            dep("PostgreSQL", HealthCheckStatus::Healthy, Some(5)),
            dep("Email Service", HealthCheckStatus::Degraded, Some(9)),
            dep("Other", HealthCheckStatus::Unhealthy, None),
        ],
    );
    let r = system_status_from(h);
    assert_eq!(r.status, "degraded");
    assert_eq!(r.version, "1.2.3");
    assert_eq!(r.uptime_seconds, 42);
    assert_eq!(r.services.database.status, "healthy");
    assert_eq!(r.services.database.latency_ms, Some(5));
    assert_eq!(r.services.database.message.as_deref(), Some("PostgreSQL error"));
    assert_eq!(r.services.email.status, "disabled");
    assert_eq!(r.services.email.latency_ms, None);
    assert_eq!(r.services.email.message.as_deref(), Some("Email Service details"));
    assert_eq!(r.services.blockchain.status, "unknown");
    assert_eq!(r.services.blockchain.latency_ms, None);
    assert_eq!(r.services.blockchain.message, None);
}

#[test]
fn last_report_of_a_service_wins() {
    let h = report(
        "healthy",
        vec![
            dep("Solana RPC", HealthCheckStatus::Unhealthy, Some(1)),
            dep("Solana RPC", HealthCheckStatus::Degraded, Some(2)),
        ],
    );
    let r = system_status_from(h);
    assert_eq!(r.services.blockchain.status, "degraded");
    assert_eq!(r.services.blockchain.latency_ms, Some(2));
}

#[test]
fn meter_status_uses_first_database_report() {
    let h = report(
        "healthy",
        vec![
            dep("PostgreSQL", HealthCheckStatus::Degraded, Some(7)),
            dep("PostgreSQL", HealthCheckStatus::Healthy, Some(8)),
        ],
    );
    let r = meter_status_from(&h, meter_counts_from(Some((4, 1, 2, 1))));
    assert_eq!(r.status, "unhealthy");
    assert_eq!(r.database_latency_ms, Some(7));
    assert_eq!(r.meter_counts.total, 4);
    assert_eq!(r.meter_counts.active, 1);
    let none = meter_status_from(&report("healthy", vec![]), meter_counts_from(None));
    assert_eq!(none.status, "unknown");
    assert_eq!(none.database_latency_ms, None);
    assert_eq!(none.meter_counts.total, 0);
}

#[test]
fn readiness_probe_checks() {
    let r = readiness_from(&report("healthy", vec![dep("PostgreSQL", HealthCheckStatus::Healthy, None)]));
    assert!(r.ready);
    assert_eq!(r.checks.len(), 2);
    assert_eq!(r.checks[0].name, "database");
    assert!(r.checks[0].passed);
    assert_eq!(r.checks[1].name, "overall");
    assert!(r.checks[1].passed);
    let r = readiness_from(&report("degraded", vec![dep("PostgreSQL", HealthCheckStatus::Unknown, None)]));
    assert!(!r.ready);
    assert!(!r.checks[0].passed);
    assert!(r.checks[1].passed);
    let r = readiness_from(&report("unhealthy", vec![]));
    assert!(!r.ready);
    assert!(!r.checks[0].passed);
    assert!(!r.checks[1].passed);
}

#[test]
fn liveness_is_always_alive() {
    let l = liveness(17);
    assert!(l.alive);
    assert_eq!(l.uptime_seconds, 17);
}

#[test]
fn uptime_counts_from_the_first_query() {
    let mut clock = UptimeClock::new();
    let first = get_uptime_seconds(&mut clock);
    assert_eq!(first, 0);
    let second = get_uptime_seconds(&mut clock);
    assert!(second <= 1);
}
