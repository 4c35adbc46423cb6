//! Audit log queries for administrators: access control and paging.

use vstd::prelude::*;
use crate::error::ApiError;
use crate::text::str_eq;

verus! {

/// Largest number of audit events returned by one query.
pub const MAX_AUDIT_LIMIT: u32 = 100;

/// Query parameters for audit logs.
#[derive(Debug, Clone)]
pub struct AuditLogQuery {
    /// Filter by event type
    pub event_type: Option<String>,
    /// Filter by user ID
    pub user_id: Option<u128>,
    /// Filter by IP address
    pub ip_address: Option<String>,
    /// Page number (1-indexed)
    pub page: u32,
    /// Number of items per page (max 100)
    pub limit: u32,
}

/// Response for audit log queries.
#[derive(Debug, Clone)]
pub struct AuditLogsResponse<E> {
    pub events: Vec<E>,
    pub total: usize,
    pub page: u32,
    pub limit: u32,
}

/// Page used when a query names none.
pub fn default_page() -> (p: u32)
    ensures p == 1,
{
    1
}

/// Page size used when a query names none.
pub fn default_limit() -> (l: u32)
    ensures l == 50,
{
    50
}

/// A requested page size capped at the maximum.
pub open spec fn capped_limit(limit: u32) -> u32 {
    if limit < MAX_AUDIT_LIMIT { limit } else { MAX_AUDIT_LIMIT }
}

/// The page size actually used for a requested one.
pub fn bounded_limit(limit: u32) -> (l: u32)
    ensures l == capped_limit(limit),
{
    if limit < MAX_AUDIT_LIMIT { limit } else { MAX_AUDIT_LIMIT }
}

/// Which audit listing is requested.
#[derive(Debug, Clone, Copy, PartialEq, Eq, Structural)]
pub enum AuditListing {
    /// Events of one user.
    UserEvents,
    /// Events of one type.
    EventsByType,
    /// Security events.
    SecurityEvents,
}

/// The refusal message for a non-administrator.
pub open spec fn audit_refusal_message(listing: AuditListing) -> Seq<char> {
    match listing {
        AuditListing::SecurityEvents => "Admin access required to view security events"@,
        _ => "Admin access required to view audit logs"@,
    }
}

impl AuditLogQuery {
    /// A query with no filters and the default page and page size.
    pub fn with_defaults() -> (q: Self)
        ensures
            q.event_type is None,
            q.user_id is None,
            q.ip_address is None,
            q.page == 1,
            q.limit == 50,
    {
        AuditLogQuery { event_type: None, user_id: None, ip_address: None, page: default_page(), limit: default_limit() }
    }

    /// Checks that a user with `role` may list audit events, and gives the
    /// number of events to fetch.
    pub fn authorize(&self, role: &str, listing: AuditListing) -> (r: Result<i64, ApiError>)
        ensures
            role@ == "admin"@ ==> r == Ok::<i64, ApiError>(capped_limit(self.limit) as i64),
            role@ != "admin"@ ==> (r matches Err(ApiError::Forbidden(m)) && m@ == audit_refusal_message(listing)),
    {
        if !str_eq(role, "admin") {
            let message = match listing {
                AuditListing::SecurityEvents => String::from_str("Admin access required to view security events"),
                _ => String::from_str("Admin access required to view audit logs"),
            };
            return Err(ApiError::Forbidden(message));
        }
        Ok(bounded_limit(self.limit) as i64)
    }
}

impl<E> AuditLogsResponse<E> {
    /// The response carrying the fetched `events` for `query`.
    pub fn new(events: Vec<E>, query: &AuditLogQuery) -> (r: Self)
        ensures
            r.events == events,
            r.total == events@.len(),
            r.page == query.page,
            r.limit == capped_limit(query.limit),
    {
        let total = events.len();
        AuditLogsResponse { events, total, page: query.page, limit: bounded_limit(query.limit) }
    }
}

} // verus!

verus! {

/// No audit query returns more than the maximum number of events, and a
/// request within the maximum is served as asked.
pub proof fn law_audit_limit_capped(limit: u32)
    ensures
        capped_limit(limit) <= MAX_AUDIT_LIMIT,
        limit <= MAX_AUDIT_LIMIT ==> capped_limit(limit) == limit,
{
}

} // verus!
