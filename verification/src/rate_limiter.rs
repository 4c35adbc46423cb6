//! Rate limiting: the per-endpoint limit table and the per-IP sliding window.

use vstd::prelude::*;
use crate::error::ApiError;
use dashmap::DashMap;
use crate::clock::unix_time_now;

verus! {

/// Rate limit configuration for the different endpoint types.
#[derive(Debug, Clone, Copy, PartialEq, Eq, Structural)]
pub enum RateLimitConfig {
    Auth,
    Trading,
    WebSocket,
    Reading,
    Api,
    Admin,
    Meter,
    Public,
}

/// `(max_requests, window_seconds)` allowed for each endpoint type.
pub open spec fn spec_limits(config: RateLimitConfig) -> (u32, u64) {
    match config {
        RateLimitConfig::Auth => (5, 60),
        RateLimitConfig::Trading => (30, 60),
        RateLimitConfig::WebSocket => (5, 60),
        RateLimitConfig::Reading => (60, 60),
        RateLimitConfig::Api => (100, 60),
        RateLimitConfig::Admin => (10, 60),
        RateLimitConfig::Meter => (60, 60),
        RateLimitConfig::Public => (200, 60),
    }
}

/// The storage key prefix used for each endpoint type.
pub open spec fn spec_key(config: RateLimitConfig) -> Seq<char> {
    match config {
        RateLimitConfig::Auth => "rate_limit:auth"@,
        RateLimitConfig::Trading => "rate_limit:trading"@,
        RateLimitConfig::WebSocket => "rate_limit:websocket"@,
        RateLimitConfig::Reading => "rate_limit:reading"@,
        RateLimitConfig::Api => "rate_limit:api"@,
        RateLimitConfig::Admin => "rate_limit:admin"@,
        RateLimitConfig::Meter => "rate_limit:meter"@,
        RateLimitConfig::Public => "rate_limit:public"@,
    }
}

impl RateLimitConfig {
    pub fn auth() -> (c: Self)
        ensures c == RateLimitConfig::Auth,
    {
        Self::Auth
    }

    pub fn trading() -> (c: Self)
        ensures c == RateLimitConfig::Trading,
    {
        Self::Trading
    }

    pub fn websocket() -> (c: Self)
        ensures c == RateLimitConfig::WebSocket,
    {
        Self::WebSocket
    }

    pub fn reading() -> (c: Self)
        ensures c == RateLimitConfig::Reading,
    {
        Self::Reading
    }

    pub fn api() -> (c: Self)
        ensures c == RateLimitConfig::Api,
    {
        Self::Api
    }

    pub fn admin() -> (c: Self)
        ensures c == RateLimitConfig::Admin,
    {
        Self::Admin
    }

    pub fn meter() -> (c: Self)
        ensures c == RateLimitConfig::Meter,
    {
        Self::Meter
    }

    pub fn public() -> (c: Self)
        ensures c == RateLimitConfig::Public,
    {
        Self::Public
    }

    /// The request budget `(max_requests, window_seconds)` of this endpoint type.
    pub fn limits(&self) -> (r: (u32, u64))
        ensures r == spec_limits(*self),
    {
        match self {
            Self::Auth => (5, 60),
            Self::Trading => (30, 60),
            Self::WebSocket => (5, 60),
            Self::Reading => (60, 60),
            Self::Api => (100, 60),
            Self::Admin => (10, 60),
            Self::Meter => (60, 60),
            Self::Public => (200, 60),
        }
    }

    /// The storage key prefix of this endpoint type.
    pub fn key(&self) -> (k: &'static str)
        ensures k@ == spec_key(*self),
    {
        match self {
            Self::Auth => "rate_limit:auth",
            Self::Trading => "rate_limit:trading",
            Self::WebSocket => "rate_limit:websocket",
            Self::Reading => "rate_limit:reading",
            Self::Api => "rate_limit:api",
            Self::Admin => "rate_limit:admin",
            Self::Meter => "rate_limit:meter",
            Self::Public => "rate_limit:public",
        }
    }

    /// The counter key of this endpoint type for one client: `"<prefix>:<ip>"`.
    pub fn counter_key(&self, ip: &str) -> (k: String)
        ensures k@ == spec_key(*self) + ":"@ + ip@,
    {
        let mut k = String::from_str(self.key());
        k.append(":");
        k.append(ip);
        k
    }
}

} // verus!

verus! {

/// What the counter-based limiter does once the per-client counter has been
/// incremented: whether to start the expiry clock of the counter, and whether
/// the request may proceed.
#[derive(Debug)]
pub struct CounterDecision {
    /// Expiry, in seconds, to set on the counter (only on its first increment).
    pub set_expiry_seconds: Option<i64>,
    /// `Ok` when the request may proceed.
    pub outcome: Result<(), ApiError>,
}

impl RateLimitConfig {
    /// Decides on a request from the counter value after `INCR`; `None` when the
    /// increment failed, which counts as a counter of zero.
    pub fn counter_decision(&self, incremented: Option<u32>) -> (d: CounterDecision)
        ensures
            ({
                let current: u32 = match incremented { Some(c) => c, None => 0 };
                let (max_requests, window) = spec_limits(*self);
                &&& d.set_expiry_seconds == (if current == 1 { Some(window as i64) } else { None::<i64> })
                &&& (d.outcome is Ok <==> current <= max_requests)
                &&& (d.outcome matches Err(e) ==> e == ApiError::RateLimitExceeded { retry_after_seconds: window })
            }),
    {
        let (max_requests, window_seconds) = self.limits();
        let current: u32 = match incremented {
            Some(c) => c,
            None => 0,
        };
        let set_expiry_seconds = if current == 1 {
            Some(window_seconds as i64)
        } else {
            None
        };
        let outcome = if current > max_requests {
            Err(ApiError::RateLimitExceeded { retry_after_seconds: window_seconds })
        } else {
            Ok(())
        };
        CounterDecision { set_expiry_seconds, outcome }
    }
}

} // verus!

verus! {

/// Configuration of the per-IP sliding-window limiter.
#[derive(Debug, Clone, Copy)]
pub struct EnhancedRateLimitConfig {
    /// Maximum number of requests allowed in one window.
    pub max_requests: u32,
    /// Length of the window in seconds.
    pub window_seconds: u64,
}

impl EnhancedRateLimitConfig {
    pub fn new(max_requests: u32, window_seconds: u64) -> (c: Self)
        ensures
            c.max_requests == max_requests,
            c.window_seconds == window_seconds,
    {
        Self { max_requests, window_seconds }
    }
}

/// Oldest timestamp that is still outside the window ending at `now`:
/// a request stays in the window when its timestamp is greater than this.
pub open spec fn window_cutoff(now: u64, window: u64) -> int {
    if now >= window { now - window } else { 0 }
}

/// The timestamps, in their order, that still lie inside the window.
pub open spec fn live_timestamps(ts: Seq<u64>, cutoff: int) -> Seq<u64> {
    ts.filter(|t: u64| t > cutoff)
}

/// Seconds until a request recorded at `oldest` leaves the window
/// (the expiry `oldest + window` saturates at `u64::MAX`).
pub open spec fn retry_after(oldest: u64, window: u64, now: u64) -> int {
    let expiry: int = if oldest + window <= u64::MAX { oldest + window } else { u64::MAX as int };
    if expiry > now { expiry - now } else { 0 }
}

/// Outcome of a request given the timestamps that are still in the window:
/// admitted while fewer than `max_requests` are live, otherwise refused with the
/// number of seconds until the oldest live request expires (the whole window
/// when nothing is live).
pub open spec fn admission(live: Seq<u64>, config: EnhancedRateLimitConfig, now: u64) -> Result<(), u64> {
    if live.len() >= config.max_requests {
        if live.len() > 0 {
            Err(retry_after(live[0], config.window_seconds, now) as u64)
        } else {
            Err(config.window_seconds)
        }
    } else {
        Ok(())
    }
}

/// Timestamp of the last periodic cleanup after a request at `now`: the
/// cleanup runs when more than a minute has passed since the previous one.
pub open spec fn next_cleanup_time(last_cleanup: u64, now: u64) -> u64 {
    if now > last_cleanup + 60 { now } else { last_cleanup }
}

/// Request timestamps of one client.
#[derive(Debug, Clone)]
pub struct RateLimitEntry {
    /// Accepted request times, oldest first.
    pub timestamps: Vec<u64>,
    /// When timestamps outside the window were last discarded.
    pub last_cleanup: u64,
    /// When the client last made a request.
    pub last_access: u64,
}

proof fn lemma_live_push(ts: Seq<u64>, cutoff: int, t: u64)
    ensures
        live_timestamps(ts.push(t), cutoff) == (if t > cutoff {
            live_timestamps(ts, cutoff).push(t)
        } else {
            live_timestamps(ts, cutoff)
        }),
{
    ts.lemma_filter_push(t, |x: u64| x > cutoff);
}

proof fn lemma_live_idempotent(ts: Seq<u64>, cutoff: int)
    ensures
        live_timestamps(live_timestamps(ts, cutoff), cutoff) == live_timestamps(ts, cutoff),
    decreases ts.len(),
{
    if ts.len() > 0 {
        let init = ts.drop_last();
        let t = ts.last();
        assert(init.push(t) == ts);
        lemma_live_idempotent(init, cutoff);
        lemma_live_push(init, cutoff, t);
        if t > cutoff {
            lemma_live_push(live_timestamps(init, cutoff), cutoff, t);
        }
    } else {
        reveal(Seq::filter);
    }
}

/// Keeps, in order, the timestamps of `ts` that are greater than `cutoff`.
fn keep_after(ts: &Vec<u64>, cutoff: u64) -> (kept: Vec<u64>)
    ensures
        kept@ == live_timestamps(ts@, cutoff as int),
{
    let mut kept: Vec<u64> = Vec::new();
    let mut i: usize = 0;
    proof {
        reveal(Seq::filter);
        assert(ts@.take(0) =~= Seq::<u64>::empty());
    }
    while i < ts.len()
        invariant
            i <= ts.len(),
            kept@ == live_timestamps(ts@.take(i as int), cutoff as int),
        decreases ts.len() - i,
    {
        let t = ts[i];
        proof {
            assert(ts@.take(i as int).push(t) =~= ts@.take(i + 1));
            lemma_live_push(ts@.take(i as int), cutoff as int, t);
        }
        if t > cutoff {
            kept.push(t);
        }
        i = i + 1;
    }
    proof {
        assert(ts@.take(ts.len() as int) =~= ts@);
    }
    kept
}

impl RateLimitEntry {
    /// A fresh entry, created by a request at `now`.
    pub fn new_at(now: u64) -> (e: Self)
        ensures
            e.timestamps@ == Seq::<u64>::empty(),
            e.last_cleanup == now,
            e.last_access == now,
    {
        Self { timestamps: Vec::new(), last_cleanup: now, last_access: now }
    }

    /// A fresh entry whose cleanup clock starts at the current time.
    pub fn new() -> (e: Self)
        ensures
            e.timestamps@ == Seq::<u64>::empty(),
            e.last_access == e.last_cleanup,
    {
        Self::new_at(unix_time_now())
    }

    /// Discards the timestamps outside the window ending at `now` and records
    /// `now` as the time of this cleanup.
    pub fn cleanup_at(&mut self, window_seconds: u64, now: u64)
        ensures
            final(self).timestamps@ == live_timestamps(old(self).timestamps@, window_cutoff(now, window_seconds)),
            final(self).last_cleanup == now,
            final(self).last_access == old(self).last_access,
    {
        let cutoff = now.saturating_sub(window_seconds);
        self.timestamps = keep_after(&self.timestamps, cutoff);
        self.last_cleanup = now;
    }

    /// Discards the timestamps outside the window ending at the current time.
    pub fn cleanup(&mut self, window_seconds: u64)
        ensures
            exists|now: u64|
                final(self).timestamps@ == live_timestamps(old(self).timestamps@, #[trigger] window_cutoff(now, window_seconds))
                && final(self).last_cleanup == now,
            final(self).last_access == old(self).last_access,
    {
        let now = unix_time_now();
        self.cleanup_at(window_seconds, now);
    }

    /// Decides on a request made at `now` and records it when admitted.
    pub fn check_and_add_at(&mut self, config: &EnhancedRateLimitConfig, now: u64) -> (r: Result<(), u64>)
        ensures
            ({
                let live = live_timestamps(old(self).timestamps@, window_cutoff(now, config.window_seconds));
                &&& r == admission(live, *config, now)
                &&& r is Ok ==> final(self).timestamps@ == live.push(now)
                &&& r is Err ==> final(self).timestamps@ == live
                &&& final(self).last_cleanup == next_cleanup_time(old(self).last_cleanup, now)
            }),
            final(self).last_access == now,
    {
        let ghost start = self.timestamps@;
        let ghost cutoff = window_cutoff(now, config.window_seconds);
        if now > self.last_cleanup && now - self.last_cleanup > 60 {
            self.cleanup_at(config.window_seconds, now);
            proof { lemma_live_idempotent(start, cutoff); }
        }
        let cutoff_exec = now.saturating_sub(config.window_seconds);
        self.timestamps = keep_after(&self.timestamps, cutoff_exec);
        self.last_access = now;
        assert(self.timestamps@ == live_timestamps(start, cutoff));

        if self.timestamps.len() >= config.max_requests as usize {
            if self.timestamps.len() > 0 {
                let oldest = self.timestamps[0];
                let retry = oldest.saturating_add(config.window_seconds).saturating_sub(now);
                return Err(retry);
            }
            return Err(config.window_seconds);
        }
        self.timestamps.push(now);
        Ok(())
    }

    /// Decides on a request made at the current time and records it when admitted.
    pub fn check_and_add(&mut self, config: &EnhancedRateLimitConfig) -> (r: Result<(), u64>)
        ensures
            exists|now: u64| {
                let live = live_timestamps(old(self).timestamps@, #[trigger] window_cutoff(now, config.window_seconds));
                &&& r == admission(live, *config, now)
                &&& r is Ok ==> final(self).timestamps@ == live.push(now)
                &&& r is Err ==> final(self).timestamps@ == live
                &&& final(self).last_cleanup == next_cleanup_time(old(self).last_cleanup, now)
                &&& final(self).last_access == now
            },
    {
        let now = unix_time_now();
        self.check_and_add_at(config, now)
    }
}

} // verus!

verus! {

#[verifier::external_type_specification]
#[verifier::external_body]
#[verifier::reject_recursive_types(K)]
#[verifier::reject_recursive_types(V)]
#[verifier::reject_recursive_types(S)]
pub struct ExDashMap<K, V, S>(DashMap<K, V, S>);

/// What a per-IP table holds: the entry stored under each client address.
pub uninterp spec fn ip_entries(m: DashMap<String, RateLimitEntry>) -> Map<Seq<char>, RateLimitEntry>;

/// `DashMap::new`: an empty table.
#[verifier::external_body]
fn ip_table_new() -> (table: DashMap<String, RateLimitEntry>)
    ensures
        ip_entries(table).dom() == Set::<Seq<char>>::empty(),
{
    DashMap::new()
}

/// `DashMap::get` followed by a clone of the stored entry: a copy of the
/// entry stored under `ip`, if any (the derived `Clone` copies every field;
/// the timestamps are compared by their contents).
#[verifier::external_body]
fn ip_table_get(m: &DashMap<String, RateLimitEntry>, ip: &str) -> (r: Option<RateLimitEntry>)
    ensures
        r is Some <==> ip_entries(*m).contains_key(ip@),
        r matches Some(e) ==> {
            &&& e.timestamps@ == ip_entries(*m)[ip@].timestamps@
            &&& e.last_cleanup == ip_entries(*m)[ip@].last_cleanup
            &&& e.last_access == ip_entries(*m)[ip@].last_access
        },
{
    match m.get(ip) {
        Some(entry) => Some(entry.value().clone()),
        None => None,
    }
}

/// `DashMap::insert`: stores `entry` under `ip`, replacing any previous entry.
#[verifier::external_body]
fn ip_table_insert(m: &mut DashMap<String, RateLimitEntry>, ip: String, entry: RateLimitEntry)
    ensures
        ip_entries(*final(m)) == ip_entries(*old(m)).insert(ip@, entry),
{
    m.insert(ip, entry);
}

/// `DashMap::len`: the number of stored entries.
#[verifier::external_body]
fn ip_table_len(m: &DashMap<String, RateLimitEntry>) -> (n: usize)
    ensures
        n == ip_entries(*m).dom().len(),
{
    m.len()
}

/// `DashMap::retain` keeping the entries that `RateLimitEntry::recently_used`
/// accepts for `now` and `window_seconds`.
#[verifier::external_body]
fn ip_table_retain_recent(m: &mut DashMap<String, RateLimitEntry>, now: u64, window_seconds: u64)
    ensures
        ip_entries(*final(m)) == recently_used_entries(ip_entries(*old(m)), now, window_seconds),
{
    m.retain(|_, entry| entry.recently_used(now, window_seconds));
}

/// An entry is kept while the client's last request lies less than two
/// windows in the past (or in the future, when the clock has moved back).
pub open spec fn is_recently_used(e: RateLimitEntry, now: u64, window_seconds: u64) -> bool {
    now < e.last_access || now - e.last_access < 2 * window_seconds
}

/// The entries of `entries` that are kept by a cleanup at `now`.
pub open spec fn recently_used_entries(entries: Map<Seq<char>, RateLimitEntry>, now: u64, window_seconds: u64) -> Map<Seq<char>, RateLimitEntry> {
    entries.restrict(entries.dom().filter(|k: Seq<char>| is_recently_used(entries[k], now, window_seconds)))
}

impl RateLimitEntry {
    /// Whether this entry is still worth keeping at `now`: the client made a
    /// request less than two windows ago.
    pub fn recently_used(&self, now: u64, window_seconds: u64) -> (b: bool)
        ensures
            b == is_recently_used(*self, now, window_seconds),
    {
        if now < self.last_access {
            true
        } else {
            ((now - self.last_access) as u128) < (window_seconds as u128) * 2
        }
    }
}

/// The timestamps that a client had before a request at `now`
/// (none for a client that has not been seen).
pub open spec fn prior_timestamps(entries: Map<Seq<char>, RateLimitEntry>, ip: Seq<char>) -> Seq<u64> {
    if entries.contains_key(ip) { entries[ip].timestamps@ } else { Seq::empty() }
}

/// The last cleanup time of a client before a request at `now`
/// (a client that has not been seen starts its clock at `now`).
pub open spec fn prior_cleanup(entries: Map<Seq<char>, RateLimitEntry>, ip: Seq<char>, now: u64) -> u64 {
    if entries.contains_key(ip) { entries[ip].last_cleanup } else { now }
}

/// One request of client `ip` at `now` against the table `before`, leaving the
/// table `after` and the outcome `r`: only the client's own entry changes; it
/// keeps its live timestamps, plus `now` when the request is admitted.
pub open spec fn rate_limit_step(
    before: Map<Seq<char>, RateLimitEntry>,
    after: Map<Seq<char>, RateLimitEntry>,
    config: EnhancedRateLimitConfig,
    ip: Seq<char>,
    now: u64,
    r: Result<(), u64>,
) -> bool {
    let live = live_timestamps(prior_timestamps(before, ip), window_cutoff(now, config.window_seconds));
    &&& r == admission(live, config, now)
    &&& after.dom() == before.dom().insert(ip)
    &&& forall|k: Seq<char>| k != ip && #[trigger] before.contains_key(k) ==> after[k] == before[k]
    &&& after[ip].timestamps@ == (if r is Ok { live.push(now) } else { live })
    &&& after[ip].last_cleanup == next_cleanup_time(prior_cleanup(before, ip, now), now)
    &&& after[ip].last_access == now
}

/// The error reported for a refused request.
pub open spec fn rate_limit_refusal(retry_after_seconds: u64) -> Result<(), ApiError> {
    Err(ApiError::RateLimitExceeded { retry_after_seconds })
}

/// Sliding-window rate limiter that tracks every client address separately.
pub struct EnhancedRateLimiter {
    config: EnhancedRateLimitConfig,
    ip_map: DashMap<String, RateLimitEntry>,
}

impl EnhancedRateLimiter {
    /// The entry of every client address seen so far.
    pub closed spec fn entries(&self) -> Map<Seq<char>, RateLimitEntry> {
        ip_entries(self.ip_map)
    }

    /// The limits this limiter enforces.
    pub closed spec fn limits(&self) -> EnhancedRateLimitConfig {
        self.config
    }

    /// The limits this limiter enforces.
    pub fn config(&self) -> (c: EnhancedRateLimitConfig)
        ensures c == self.limits(),
    {
        self.config
    }

    pub fn new(config: EnhancedRateLimitConfig) -> (l: Self)
        ensures
            l.limits() == config,
            l.entries().dom() == Set::<Seq<char>>::empty(),
    {
        Self { config, ip_map: ip_table_new() }
    }

    /// Number of client addresses currently tracked.
    pub fn tracked_ip_count(&self) -> (n: usize)
        ensures
            n == self.entries().dom().len(),
    {
        ip_table_len(&self.ip_map)
    }

    /// Decides on a request from `ip` made at `now`, recording it when admitted.
    pub fn check_rate_limit_at(&mut self, ip: &str, now: u64) -> (r: Result<(), ApiError>)
        ensures
            final(self).limits() == old(self).limits(),
            exists|o: Result<(), u64>| {
                &&& #[trigger] rate_limit_step(old(self).entries(), final(self).entries(), old(self).limits(), ip@, now, o)
                &&& match o {
                    Ok(()) => r is Ok,
                    Err(secs) => r == rate_limit_refusal(secs),
                }
            },
    {
        let ghost before = self.entries();
        let mut entry = match ip_table_get(&self.ip_map, ip) {
            Some(e) => e,
            None => RateLimitEntry::new_at(now),
        };
        let config = self.config;
        let o = entry.check_and_add_at(&config, now);
        ip_table_insert(&mut self.ip_map, String::from_str(ip), entry);
        let r = match o {
            Ok(()) => Ok(()),
            Err(retry_after_seconds) => Err(ApiError::RateLimitExceeded { retry_after_seconds }),
        };
        proof {
            let after = self.entries();
            assert(after.dom() =~= before.dom().insert(ip@));
            assert(rate_limit_step(before, after, config, ip@, now, o));
            assert(config == old(self).limits());
            assert(before == old(self).entries());
            assert(rate_limit_step(old(self).entries(), self.entries(), old(self).limits(), ip@, now, o));
            assert(match o {
                Ok(()) => r is Ok,
                Err(secs) => r == rate_limit_refusal(secs),
            });
        }
        r
    }

    /// Decides on a request from `ip` made at the current time, recording it
    /// when admitted.
    pub fn check_rate_limit(&mut self, ip: &str) -> (r: Result<(), ApiError>)
        ensures
            final(self).limits() == old(self).limits(),
            exists|now: u64, o: Result<(), u64>| {
                &&& #[trigger] rate_limit_step(old(self).entries(), final(self).entries(), old(self).limits(), ip@, now, o)
                &&& match o {
                    Ok(()) => r is Ok,
                    Err(secs) => r == rate_limit_refusal(secs),
                }
            },
    {
        let now = unix_time_now();
        self.check_rate_limit_at(ip, now)
    }

    /// Forgets the clients whose last request was two windows or more before
    /// `now`.
    pub fn cleanup_expired_at(&mut self, now: u64)
        ensures
            final(self).limits() == old(self).limits(),
            final(self).entries() == recently_used_entries(old(self).entries(), now, old(self).limits().window_seconds),
    {
        let window = self.config.window_seconds;
        ip_table_retain_recent(&mut self.ip_map, now, window);
    }

    /// Forgets the clients whose last request was two windows or more before
    /// the current time.
    pub fn cleanup_expired(&mut self)
        ensures
            final(self).limits() == old(self).limits(),
            exists|now: u64| final(self).entries() == #[trigger] recently_used_entries(old(self).entries(), now, old(self).limits().window_seconds),
    {
        let now = unix_time_now();
        self.cleanup_expired_at(now);
    }
}

} // verus!

verus! {

/// Every timestamp that is still live lies after the cutoff and was recorded
/// before.
proof fn lemma_live_members(ts: Seq<u64>, cutoff: int, i: int)
    requires
        0 <= i < live_timestamps(ts, cutoff).len(),
    ensures
        live_timestamps(ts, cutoff)[i] > cutoff,
        ts.contains(live_timestamps(ts, cutoff)[i]),
{
    let p = |t: u64| t > cutoff;
    ts.lemma_filter_pred(p, i);
    let live = ts.filter(p);
    assert(live.contains(live[i]));
    ts.lemma_filter_contains_rev(p, live[i]);
}

/// A client that has fewer live requests than the limit is admitted, and its
/// request is recorded.
pub proof fn law_admits_within_limit(
    before: Map<Seq<char>, RateLimitEntry>,
    after: Map<Seq<char>, RateLimitEntry>,
    config: EnhancedRateLimitConfig,
    ip: Seq<char>,
    now: u64,
    r: Result<(), u64>,
)
    requires
        rate_limit_step(before, after, config, ip, now, r),
        live_timestamps(prior_timestamps(before, ip), window_cutoff(now, config.window_seconds)).len()
            < config.max_requests,
    ensures
        r is Ok,
        after[ip].timestamps@.len() == live_timestamps(prior_timestamps(before, ip), window_cutoff(now, config.window_seconds)).len() + 1,
        after[ip].timestamps@.last() == now,
{
}

/// A client that already has `max_requests` live requests is refused and
/// nothing is recorded for the refused request.
pub proof fn law_refuses_at_limit(
    before: Map<Seq<char>, RateLimitEntry>,
    after: Map<Seq<char>, RateLimitEntry>,
    config: EnhancedRateLimitConfig,
    ip: Seq<char>,
    now: u64,
    r: Result<(), u64>,
)
    requires
        rate_limit_step(before, after, config, ip, now, r),
        live_timestamps(prior_timestamps(before, ip), window_cutoff(now, config.window_seconds)).len()
            >= config.max_requests,
    ensures
        r is Err,
        after[ip].timestamps@ == live_timestamps(prior_timestamps(before, ip), window_cutoff(now, config.window_seconds)),
{
}

/// A refused client is told to retry after a positive number of seconds that
/// is at most one window, provided its recorded requests do not lie in the
/// future and the window is not empty.
pub proof fn law_retry_after_within_window(
    before: Map<Seq<char>, RateLimitEntry>,
    after: Map<Seq<char>, RateLimitEntry>,
    config: EnhancedRateLimitConfig,
    ip: Seq<char>,
    now: u64,
    secs: u64,
)
    requires
        rate_limit_step(before, after, config, ip, now, Err(secs)),
        config.window_seconds > 0,
        now < u64::MAX,
        forall|i: int| 0 <= i < prior_timestamps(before, ip).len() ==> prior_timestamps(before, ip)[i] <= now,
    ensures
        0 < secs <= config.window_seconds,
{
    let ts = prior_timestamps(before, ip);
    let cutoff = window_cutoff(now, config.window_seconds);
    let live = live_timestamps(ts, cutoff);
    if live.len() > 0 {
        lemma_live_members(ts, cutoff, 0);
        let oldest = live[0];
        assert(ts.contains(oldest));
        let j = choose|j: int| 0 <= j < ts.len() && ts[j] == oldest;
        assert(oldest <= now);
    }
}

/// A request from one client leaves the entries of every other client as
/// they were.
pub proof fn law_clients_independent(
    before: Map<Seq<char>, RateLimitEntry>,
    after: Map<Seq<char>, RateLimitEntry>,
    config: EnhancedRateLimitConfig,
    ip: Seq<char>,
    now: u64,
    r: Result<(), u64>,
    other: Seq<char>,
)
    requires
        rate_limit_step(before, after, config, ip, now, r),
        other != ip,
    ensures
        after.contains_key(other) == before.contains_key(other),
        before.contains_key(other) ==> after[other] == before[other],
{
}

/// Once every recorded request of a client has left the window, the client is
/// admitted again and only the new request is remembered.
pub proof fn law_window_resets(
    before: Map<Seq<char>, RateLimitEntry>,
    after: Map<Seq<char>, RateLimitEntry>,
    config: EnhancedRateLimitConfig,
    ip: Seq<char>,
    now: u64,
    r: Result<(), u64>,
)
    requires
        rate_limit_step(before, after, config, ip, now, r),
        config.max_requests > 0,
        forall|i: int| 0 <= i < prior_timestamps(before, ip).len()
            ==> prior_timestamps(before, ip)[i] <= window_cutoff(now, config.window_seconds),
    ensures
        r is Ok,
        after[ip].timestamps@ == seq![now],
{
    let ts = prior_timestamps(before, ip);
    let cutoff = window_cutoff(now, config.window_seconds);
    let p = |t: u64| t > cutoff;
    assert(ts.all(|x: u64| !p(x))) by {
        assert forall|i: int| 0 <= i < ts.len() implies !p(ts[i]) by {}
    }
    ts.lemma_all_neg_filter_empty(p);
    assert(live_timestamps(ts, cutoff).len() == 0);
    assert(live_timestamps(ts, cutoff) =~= Seq::<u64>::empty());
    assert(Seq::<u64>::empty().push(now) =~= seq![now]);
}

/// An admitted request never leaves a client with more than `max_requests`
/// requests in its window; a refused one leaves it with no more than it had.
pub proof fn law_window_never_overfills(
    before: Map<Seq<char>, RateLimitEntry>,
    after: Map<Seq<char>, RateLimitEntry>,
    config: EnhancedRateLimitConfig,
    ip: Seq<char>,
    now: u64,
    r: Result<(), u64>,
)
    requires
        rate_limit_step(before, after, config, ip, now, r),
    ensures
        r is Ok ==> after[ip].timestamps@.len() <= config.max_requests,
        r is Err ==> after[ip].timestamps@.len() <= prior_timestamps(before, ip).len(),
{
    let ts = prior_timestamps(before, ip);
    ts.lemma_filter_len(|t: u64| t > window_cutoff(now, config.window_seconds));
}

/// Cleaning up expired clients keeps exactly the clients that made a request
/// less than two windows ago, unchanged.
pub proof fn law_cleanup_keeps_recent(
    entries: Map<Seq<char>, RateLimitEntry>,
    now: u64,
    window_seconds: u64,
    ip: Seq<char>,
)
    ensures
        recently_used_entries(entries, now, window_seconds).contains_key(ip)
            <==> (entries.contains_key(ip) && is_recently_used(entries[ip], now, window_seconds)),
        recently_used_entries(entries, now, window_seconds).contains_key(ip)
            ==> recently_used_entries(entries, now, window_seconds)[ip] == entries[ip],
{
}

} // verus!

verus! {

/// Auth endpoints: 5 requests per minute per IP.
pub fn auth_rate_limiter() -> (l: EnhancedRateLimiter)
    ensures
        l.limits() == (EnhancedRateLimitConfig { max_requests: 5, window_seconds: 60 }),
        l.entries().dom() == Set::<Seq<char>>::empty(),
{
    EnhancedRateLimiter::new(EnhancedRateLimitConfig::new(5, 60))
}

/// Trading endpoints: 30 requests per minute per IP.
pub fn trading_rate_limiter() -> (l: EnhancedRateLimiter)
    ensures
        l.limits() == (EnhancedRateLimitConfig { max_requests: 30, window_seconds: 60 }),
        l.entries().dom() == Set::<Seq<char>>::empty(),
{
    EnhancedRateLimiter::new(EnhancedRateLimitConfig::new(30, 60))
}

/// General API endpoints: 100 requests per minute per IP.
pub fn api_rate_limiter() -> (l: EnhancedRateLimiter)
    ensures
        l.limits() == (EnhancedRateLimitConfig { max_requests: 100, window_seconds: 60 }),
        l.entries().dom() == Set::<Seq<char>>::empty(),
{
    EnhancedRateLimiter::new(EnhancedRateLimitConfig::new(100, 60))
}

/// Admin endpoints: 10 requests per minute per IP.
pub fn admin_rate_limiter() -> (l: EnhancedRateLimiter)
    ensures
        l.limits() == (EnhancedRateLimitConfig { max_requests: 10, window_seconds: 60 }),
        l.entries().dom() == Set::<Seq<char>>::empty(),
{
    EnhancedRateLimiter::new(EnhancedRateLimitConfig::new(10, 60))
}

/// WebSocket endpoints: 5 connections per minute per IP.
pub fn websocket_rate_limiter() -> (l: EnhancedRateLimiter)
    ensures
        l.limits() == (EnhancedRateLimitConfig { max_requests: 5, window_seconds: 60 }),
        l.entries().dom() == Set::<Seq<char>>::empty(),
{
    EnhancedRateLimiter::new(EnhancedRateLimitConfig::new(5, 60))
}

/// Meter data submission: 60 requests per minute per IP.
pub fn meter_rate_limiter() -> (l: EnhancedRateLimiter)
    ensures
        l.limits() == (EnhancedRateLimitConfig { max_requests: 60, window_seconds: 60 }),
        l.entries().dom() == Set::<Seq<char>>::empty(),
{
    EnhancedRateLimiter::new(EnhancedRateLimitConfig::new(60, 60))
}

/// Public/health endpoints: 200 requests per minute per IP.
pub fn public_rate_limiter() -> (l: EnhancedRateLimiter)
    ensures
        l.limits() == (EnhancedRateLimitConfig { max_requests: 200, window_seconds: 60 }),
        l.entries().dom() == Set::<Seq<char>>::empty(),
{
    EnhancedRateLimiter::new(EnhancedRateLimitConfig::new(200, 60))
}

} // verus!

verus! {

proof fn lemma_live_all_kept(ts: Seq<u64>, cutoff: int)
    requires
        forall|i: int| 0 <= i < ts.len() ==> ts[i] > cutoff,
    ensures
        live_timestamps(ts, cutoff) == ts,
    decreases ts.len(),
{
    if ts.len() == 0 {
        reveal(Seq::filter);
    } else {
        let init = ts.drop_last();
        assert(init.push(ts.last()) == ts);
        lemma_live_all_kept(init, cutoff);
        lemma_live_push(init, cutoff, ts.last());
    }
}

/// Timestamps in ascending order.
pub open spec fn sorted_ascending(ts: Seq<u64>) -> bool {
    forall|i: int, j: int| 0 <= i <= j < ts.len() ==> ts[i] <= ts[j]
}

proof fn lemma_live_sorted(ts: Seq<u64>, cutoff: int)
    requires
        sorted_ascending(ts),
    ensures
        sorted_ascending(live_timestamps(ts, cutoff)),
    decreases ts.len(),
{
    if ts.len() == 0 {
        reveal(Seq::filter);
    } else {
        let init = ts.drop_last();
        let t = ts.last();
        assert(init.push(t) == ts);
        lemma_live_sorted(init, cutoff);
        lemma_live_push(init, cutoff, t);
        let live = live_timestamps(init, cutoff);
        assert forall|i: int| 0 <= i < live.len() implies live[i] <= t by {
            lemma_live_members(init, cutoff, i);
            let j = choose|j: int| 0 <= j < init.len() && init[j] == live[i];
            assert(ts[j] == init[j]);
            assert(ts[ts.len() - 1] == t);
        }
    }
}

/// A request keeps a client's recorded timestamps in ascending order, inside
/// the window that ends at the request, and no more than `max_requests` of
/// them, provided they were so before and none lies after the request (and
/// the window and the clock are not zero: the request itself would then lie
/// on the window's lower edge).
pub proof fn law_window_stays_ordered(
    before: Seq<u64>,
    after: Seq<u64>,
    config: EnhancedRateLimitConfig,
    now: u64,
    r: Result<(), u64>,
)
    requires
        config.window_seconds > 0,
        now > 0,
        sorted_ascending(before),
        forall|i: int| 0 <= i < before.len() ==> before[i] <= now,
        before.len() <= config.max_requests,
        r == admission(live_timestamps(before, window_cutoff(now, config.window_seconds)), config, now),
        r is Ok ==> after == live_timestamps(before, window_cutoff(now, config.window_seconds)).push(now),
        r is Err ==> after == live_timestamps(before, window_cutoff(now, config.window_seconds)),
    ensures
        sorted_ascending(after),
        forall|i: int| 0 <= i < after.len() ==> window_cutoff(now, config.window_seconds) < #[trigger] after[i] <= now,
        after.len() <= config.max_requests,
{
    let cutoff = window_cutoff(now, config.window_seconds);
    let live = live_timestamps(before, cutoff);
    lemma_live_sorted(before, cutoff);
    before.lemma_filter_len(|t: u64| t > cutoff);
    assert forall|i: int| 0 <= i < live.len() implies cutoff < #[trigger] live[i] <= now by {
        lemma_live_members(before, cutoff, i);
        let j = choose|j: int| 0 <= j < before.len() && before[j] == live[i];
    }
    if r is Ok {
        assert forall|i: int, j: int| 0 <= i <= j < after.len() implies after[i] <= after[j] by {
            if j == live.len() {
                assert(after[j] == now);
                if i < live.len() { assert(after[i] == live[i]); }
            } else {
                assert(after[i] == live[i] && after[j] == live[j]);
            }
        }
        assert forall|i: int| 0 <= i < after.len() implies cutoff < #[trigger] after[i] <= now by {
            if i < live.len() { assert(after[i] == live[i]); }
        }
    }
}

/// Requests that a client makes within the same second (at a time after the
/// window start) all stay in the window, so the client is admitted exactly
/// while it has made fewer than `max_requests` of them.
pub proof fn law_burst_admits_up_to_limit(ts: Seq<u64>, config: EnhancedRateLimitConfig, now: u64)
    requires
        forall|i: int| 0 <= i < ts.len() ==> ts[i] == now,
        now > window_cutoff(now, config.window_seconds),
    ensures
        live_timestamps(ts, window_cutoff(now, config.window_seconds)) == ts,
        admission(ts, config, now) is Ok <==> ts.len() < config.max_requests,
{
    lemma_live_all_kept(ts, window_cutoff(now, config.window_seconds));
}

} // verus!

verus! {

/// One call of a limiter: the client address and the clock second.
pub type Call = (Seq<char>, u64);

/// A run of a limiter: `states[k + 1]` and `results[k]` come from the call
/// `calls[k]` made against `states[k]`.
pub open spec fn is_run(
    config: EnhancedRateLimitConfig,
    states: Seq<Map<Seq<char>, RateLimitEntry>>,
    calls: Seq<Call>,
    results: Seq<Result<(), u64>>,
) -> bool {
    &&& states.len() == calls.len() + 1
    &&& results.len() == calls.len()
    &&& forall|k: int| 0 <= k < calls.len() ==> #[trigger] rate_limit_step(states[k], states[k + 1], config,
        calls[k].0, calls[k].1, results[k])
}

/// The clock seconds of the calls that `ip` made, in order.
pub open spec fn client_times(calls: Seq<Call>, ip: Seq<char>) -> Seq<u64>
    decreases calls.len(),
{
    if calls.len() == 0 {
        Seq::empty()
    } else {
        let prev = client_times(calls.drop_last(), ip);
        if calls.last().0 == ip { prev.push(calls.last().1) } else { prev }
    }
}

/// The timestamps and last cleanup time of a client before a call at `now`,
/// given what it had recorded (a new client starts empty, cleaned at `now`).
pub open spec fn prior_of(own: Option<(Seq<u64>, u64)>, now: u64) -> (Seq<u64>, u64) {
    match own {
        Some(p) => p,
        None => (Seq::empty(), now),
    }
}

/// What a client has recorded (timestamps and last cleanup time) after making
/// calls at the clock seconds `times`, counting only its own calls; `None`
/// before its first call.
pub open spec fn own_state(config: EnhancedRateLimitConfig, times: Seq<u64>) -> Option<(Seq<u64>, u64)>
    decreases times.len(),
{
    if times.len() == 0 {
        None
    } else {
        let now = times.last();
        let prior = prior_of(own_state(config, times.drop_last()), now);
        let live = live_timestamps(prior.0, window_cutoff(now, config.window_seconds));
        let r = admission(live, config, now);
        Some((if r is Ok { live.push(now) } else { live }, next_cleanup_time(prior.1, now)))
    }
}

/// The outcome of a call at `now` by a client that made its earlier calls at
/// the clock seconds `earlier`.
pub open spec fn own_result(config: EnhancedRateLimitConfig, earlier: Seq<u64>, now: u64) -> Result<(), u64> {
    let prior = prior_of(own_state(config, earlier), now);
    admission(live_timestamps(prior.0, window_cutoff(now, config.window_seconds)), config, now)
}

proof fn lemma_run_tracks_client(
    config: EnhancedRateLimitConfig,
    states: Seq<Map<Seq<char>, RateLimitEntry>>,
    calls: Seq<Call>,
    results: Seq<Result<(), u64>>,
    ip: Seq<char>,
    k: int,
)
    requires
        is_run(config, states, calls, results),
        !states[0].contains_key(ip),
        0 <= k <= calls.len(),
    ensures
        ({
            let own = own_state(config, client_times(calls.take(k), ip));
            &&& (own is Some <==> states[k].contains_key(ip))
            &&& (own matches Some(p) ==> states[k][ip].timestamps@ == p.0 && states[k][ip].last_cleanup == p.1)
        }),
    decreases k,
{
    if k > 0 {
        lemma_run_tracks_client(config, states, calls, results, ip, k - 1);
        assert(calls.take(k).drop_last() =~= calls.take(k - 1));
        assert(calls.take(k).last() == calls[k - 1]);
        let j = k - 1;
        assert(rate_limit_step(states[j], states[j + 1], config, calls[j].0, calls[j].1, results[j]));
        assert(j + 1 == k);
        let times = client_times(calls.take(k), ip);
        let before = client_times(calls.take(k - 1), ip);
        if calls[k - 1].0 == ip {
            assert(times == before.push(calls[k - 1].1));
            assert(times.drop_last() =~= before);
            assert(states[k].dom().contains(ip));
        } else {
            assert(times == before);
            if states[k - 1].contains_key(ip) {
                assert(states[k][ip] == states[k - 1][ip]);
            }
            assert(states[k].contains_key(ip) == states[k - 1].contains_key(ip));
        }
    } else {
        assert(calls.take(0) =~= Seq::<Call>::empty());
    }
}

/// Each call of a client gets the outcome that the client's own earlier
/// calls and the time of the call decide: the calls of other clients, however
/// many and whenever made, never change it. So two limiters with the same
/// limits, started without the client and given the same calls by the
/// client, answer each of those calls alike.
pub proof fn law_clients_independent_over_runs(
    config: EnhancedRateLimitConfig,
    states1: Seq<Map<Seq<char>, RateLimitEntry>>,
    calls1: Seq<Call>,
    results1: Seq<Result<(), u64>>,
    k1: int,
    states2: Seq<Map<Seq<char>, RateLimitEntry>>,
    calls2: Seq<Call>,
    results2: Seq<Result<(), u64>>,
    k2: int,
)
    requires
        is_run(config, states1, calls1, results1),
        is_run(config, states2, calls2, results2),
        0 <= k1 < calls1.len(),
        0 <= k2 < calls2.len(),
        !states1[0].contains_key(calls1[k1].0),
        !states2[0].contains_key(calls2[k2].0),
        calls1[k1] == calls2[k2],
        client_times(calls1.take(k1), calls1[k1].0) == client_times(calls2.take(k2), calls2[k2].0),
    ensures
        results1[k1] == own_result(config, client_times(calls1.take(k1), calls1[k1].0), calls1[k1].1),
        results1[k1] == results2[k2],
{
    let ip = calls1[k1].0;
    lemma_run_tracks_client(config, states1, calls1, results1, ip, k1);
    lemma_run_tracks_client(config, states2, calls2, results2, ip, k2);
    assert(rate_limit_step(states1[k1], states1[k1 + 1], config, calls1[k1].0, calls1[k1].1, results1[k1]));
    assert(rate_limit_step(states2[k2], states2[k2 + 1], config, calls2[k2].0, calls2[k2].1, results2[k2]));
}

/// Clock seconds that never go back.
pub open spec fn non_decreasing(times: Seq<u64>) -> bool {
    forall|i: int, j: int| 0 <= i <= j < times.len() ==> times[i] <= times[j]
}

/// How many of a client's calls, made at the clock seconds `times`, were
/// admitted at a second in `(lo, hi]`.
pub open spec fn admitted_between(config: EnhancedRateLimitConfig, times: Seq<u64>, lo: int, hi: int) -> nat
    decreases times.len(),
{
    if times.len() == 0 {
        0
    } else {
        let now = times.last();
        let earlier = times.drop_last();
        admitted_between(config, earlier, lo, hi)
            + (if own_result(config, earlier, now) is Ok && lo < now && now <= hi { 1nat } else { 0nat })
    }
}

proof fn lemma_live_nested(ts: Seq<u64>, c1: int, c2: int)
    requires
        c1 <= c2,
    ensures
        live_timestamps(live_timestamps(ts, c1), c2) == live_timestamps(ts, c2),
    decreases ts.len(),
{
    if ts.len() == 0 {
        reveal(Seq::filter);
    } else {
        let init = ts.drop_last();
        let t = ts.last();
        assert(init.push(t) == ts);
        lemma_live_nested(init, c1, c2);
        lemma_live_push(init, c1, t);
        lemma_live_push(init, c2, t);
        lemma_live_push(live_timestamps(init, c1), c2, t);
    }
}

/// The recorded timestamps of a client: never more than `max_requests`.
proof fn lemma_own_len(config: EnhancedRateLimitConfig, times: Seq<u64>)
    ensures
        own_state(config, times) matches Some(p) ==> p.0.len() <= config.max_requests,
    decreases times.len(),
{
    if times.len() > 0 {
        let now = times.last();
        lemma_own_len(config, times.drop_last());
        let prior = prior_of(own_state(config, times.drop_last()), now);
        prior.0.lemma_filter_len(|t: u64| t > window_cutoff(now, config.window_seconds));
    }
}

/// While the clock does not go back, the recorded timestamps above any level
/// at or past the current window start are exactly the admitted calls above
/// that level.
proof fn lemma_own_tracks_admitted(config: EnhancedRateLimitConfig, times: Seq<u64>, c: int)
    requires
        non_decreasing(times),
        times.len() > 0 ==> c >= window_cutoff(times.last(), config.window_seconds),
    ensures
        admitted_between(config, times, c, u64::MAX as int)
            == live_timestamps(prior_of(own_state(config, times), 0).0, c).len(),
    decreases times.len(),
{
    if times.len() == 0 {
        reveal(Seq::filter);
    } else {
        let now = times.last();
        let earlier = times.drop_last();
        let cut = window_cutoff(now, config.window_seconds);
        if earlier.len() > 0 {
            assert(earlier.last() == times[times.len() - 2]);
            assert(window_cutoff(earlier.last(), config.window_seconds) <= cut);
        }
        assert(non_decreasing(earlier));
        lemma_own_tracks_admitted(config, earlier, c);
        let prior = prior_of(own_state(config, earlier), now);
        assert(prior.0 == prior_of(own_state(config, earlier), 0).0);
        let live = live_timestamps(prior.0, cut);
        lemma_live_nested(prior.0, cut, c);
        lemma_live_push(live, c, now);
    }
}

/// A client that has made calls at the clock seconds `times` and now calls at
/// a later second `hi` or after: the calls above `hi` are not counted, so the
/// count is that of the calls made up to `hi`.
proof fn lemma_count_up_to(config: EnhancedRateLimitConfig, times: Seq<u64>, lo: int, hi: int) -> (q: Seq<u64>)
    requires
        non_decreasing(times),
    ensures
        non_decreasing(q),
        q.len() <= times.len(),
        q == times.take(q.len() as int),
        forall|i: int| 0 <= i < q.len() ==> #[trigger] q[i] <= hi,
        admitted_between(config, times, lo, hi) == admitted_between(config, q, lo, hi),
    decreases times.len(),
{
    if times.len() == 0 {
        times
    } else if times.last() <= hi {
        assert(times.take(times.len() as int) =~= times);
        times
    } else {
        let earlier = times.drop_last();
        assert(non_decreasing(earlier));
        let q = lemma_count_up_to(config, earlier, lo, hi);
        assert(q =~= times.take(q.len() as int));
        q
    }
}

proof fn lemma_count_no_upper(config: EnhancedRateLimitConfig, times: Seq<u64>, lo: int, hi: int)
    requires
        forall|i: int| 0 <= i < times.len() ==> #[trigger] times[i] <= hi,
    ensures
        admitted_between(config, times, lo, hi) == admitted_between(config, times, lo, u64::MAX as int),
    decreases times.len(),
{
    if times.len() > 0 {
        let earlier = times.drop_last();
        assert forall|i: int| 0 <= i < earlier.len() implies #[trigger] earlier[i] <= hi by {
            assert(earlier[i] == times[i]);
        }
        lemma_count_no_upper(config, earlier, lo, hi);
        assert(times.last() == times[times.len() - 1]);
    }
}

proof fn lemma_count_lower(config: EnhancedRateLimitConfig, times: Seq<u64>, lo1: int, lo2: int, hi: int)
    requires
        lo2 <= lo1 || (lo1 <= lo2 <= 0 && forall|i: int| 0 <= i < times.len() ==> #[trigger] times[i] >= 1),
    ensures
        admitted_between(config, times, lo1, hi) <= admitted_between(config, times, lo2, hi),
    decreases times.len(),
{
    if times.len() > 0 {
        let earlier = times.drop_last();
        assert forall|i: int| 0 <= i < earlier.len() implies #[trigger] earlier[i] >= 1 || lo2 <= lo1 by {
            if !(lo2 <= lo1) { assert(earlier[i] == times[i]); }
        }
        lemma_count_lower(config, earlier, lo1, lo2, hi);
        assert(times.last() == times[times.len() - 1]);
    }
}

/// While the clock does not go back (and never reads zero), a client is
/// admitted at most `max_requests` times in any window of `window_seconds`
/// seconds `(s - window_seconds, s]`.
pub proof fn law_at_most_max_per_window(config: EnhancedRateLimitConfig, times: Seq<u64>, s: int)
    requires
        non_decreasing(times),
        forall|i: int| 0 <= i < times.len() ==> #[trigger] times[i] >= 1,
    ensures
        admitted_between(config, times, s - config.window_seconds, s) <= config.max_requests,
{
    let lo = s - config.window_seconds;
    let q = lemma_count_up_to(config, times, lo, s);
    lemma_count_no_upper(config, q, lo, s);
    if q.len() == 0 {
        assert(admitted_between(config, q, lo, u64::MAX as int) == 0);
    } else {
        let last = q.last();
        let cut = window_cutoff(last, config.window_seconds);
        assert(last == q[q.len() - 1]);
        assert forall|i: int| 0 <= i < q.len() implies #[trigger] q[i] >= 1 by {
            assert(q[i] == times[i]);
        }
        if cut <= lo {
            lemma_count_lower(config, q, lo, cut, u64::MAX as int);
        } else {
            assert(cut == 0 && lo < 0);
            lemma_count_lower(config, q, lo, 0, u64::MAX as int);
        }
        lemma_own_tracks_admitted(config, q, cut);
        lemma_own_len(config, q);
        let ts = prior_of(own_state(config, q), 0).0;
        ts.lemma_filter_len(|t: u64| t > cut);
    }
}

} // verus!
