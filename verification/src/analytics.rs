//! Transaction history queries: paging and the filters of the query.

use vstd::prelude::*;
use crate::text::{concat_str, decimal, u64_to_decimal};

verus! {

/// Page size and offset of a history query: 50 rows by default, at most
/// 100, starting at row 0 by default.
pub fn transaction_page(limit: Option<i64>, offset: Option<i64>) -> (p: (i64, i64))
    ensures
        p.0 == (match limit { Some(l) => if l < 100 { l } else { 100 }, None => 50 }),
        p.1 == (match offset { Some(o) => o, None => 0 }),
{
    let l = match limit {
        Some(l) => l,
        None => 50,
    };
    let l = if l < 100 { l } else { 100 };
    let o = match offset {
        Some(o) => o,
        None => 0,
    };
    (l, o)
}

/// The filter of a history query, with its parameters numbered from `$1`.
#[derive(Debug, Clone)]
pub struct TransactionFilter {
    /// The condition, such as `user_id = $1 AND operation_type = $2`.
    pub where_clause: String,
    /// Number of the first parameter after the filter's own.
    pub next_param: u64,
}

/// The condition of a history query over the caller's operations, optionally
/// restricted to one operation type and one status, in that order.
pub open spec fn filter_clause(has_type: bool, has_status: bool) -> Seq<char> {
    let base = "user_id = $1"@;
    let with_type = if has_type { base + " AND operation_type = $2"@ } else { base };
    let status_param: nat = if has_type { 3 } else { 2 };
    if has_status { with_type + " AND operation_status = $"@ + decimal(status_param) } else { with_type }
}

/// Builds the filter of a history query.
pub fn transaction_filter(has_type: bool, has_status: bool) -> (f: TransactionFilter)
    ensures
        f.where_clause@ == filter_clause(has_type, has_status),
        f.next_param == 2 + (if has_type { 1int } else { 0 }) + (if has_status { 1int } else { 0 }),
{
    let mut clause = String::from_str("user_id = $1");
    let mut next: u64 = 2;
    if has_type {
        clause.append(" AND operation_type = $2");
        next = next + 1;
    }
    if has_status {
        clause.append(" AND operation_status = $");
        let n = u64_to_decimal(next);
        proof {
            reveal_with_fuel(decimal, 2);
        }
        clause.append(n.as_str());
        next = next + 1;
    }
    TransactionFilter { where_clause: clause, next_param: next }
}

/// The query counting the rows that a filter selects.
pub fn count_query(filter: &TransactionFilter) -> (q: String)
    ensures q@ == "SELECT COUNT(*) FROM blockchain_operations WHERE "@ + filter.where_clause@,
{
    concat_str("SELECT COUNT(*) FROM blockchain_operations WHERE ", filter.where_clause.as_str())
}

/// The paging clause that follows a filter: `LIMIT $n OFFSET $n+1`.
pub fn paging_clause(filter: &TransactionFilter) -> (q: String)
    requires filter.next_param < u64::MAX,
    ensures
        q@ == " ORDER BY created_at DESC LIMIT $"@ + decimal(filter.next_param as nat) + " OFFSET $"@
            + decimal((filter.next_param + 1) as nat),
{
    let mut q = String::from_str(" ORDER BY created_at DESC LIMIT $");
    let a = u64_to_decimal(filter.next_param);
    q.append(a.as_str());
    q.append(" OFFSET $");
    let b = u64_to_decimal(filter.next_param + 1);
    q.append(b.as_str());
    q
}

} // verus!
