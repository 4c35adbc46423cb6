use api_gateway::audit::{bounded_limit, default_limit, default_page, AuditListing, AuditLogQuery, AuditLogsResponse};
use api_gateway::error::ApiError;

#[test]
fn test_default_pagination() {
    let query = AuditLogQuery {
        event_type: None,
        user_id: None,
        ip_address: None,
        page: default_page(),
        limit: default_limit(),
    };

    assert_eq!(query.page, 1);
    assert_eq!(query.limit, 50);
}

#[test]
fn test_limit_bounds() {
    let limit = 200_u32;
    let bounded = bounded_limit(limit);
    assert_eq!(bounded, 100);
}

#[test]
fn small_limits_are_kept() {
    assert_eq!(bounded_limit(0), 0);
    assert_eq!(bounded_limit(99), 99);
    assert_eq!(bounded_limit(100), 100);
    assert_eq!(bounded_limit(u32::MAX), 100);
}

#[test]
fn only_administrators_list_audit_events() {
    let mut query = AuditLogQuery::with_defaults();
    query.limit = 500;
    assert_eq!(query.authorize("admin", AuditListing::UserEvents).unwrap(), 100);
    match query.authorize("user", AuditListing::EventsByType) {
        Err(ApiError::Forbidden(m)) => assert_eq!(m, "Admin access required to view audit logs"),
        other => panic!("unexpected {:?}", other),
    }
    match query.authorize("Admin", AuditListing::SecurityEvents) {
        Err(ApiError::Forbidden(m)) => assert_eq!(m, "Admin access required to view security events"),
        other => panic!("unexpected {:?}", other),
    }
}

#[test]
fn response_counts_events_and_caps_limit() {
    let mut query = AuditLogQuery::with_defaults();
    query.page = 3;
    query.limit = 250;
    let r = AuditLogsResponse::new(vec!["a", "b", "c"], &query);
    assert_eq!(r.total, 3);
    assert_eq!(r.page, 3);
    assert_eq!(r.limit, 100);
    assert_eq!(r.events, vec!["a", "b", "c"]);
}
