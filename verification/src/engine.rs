//! The admission engine: fixed-window counting with lazy refresh.

use vstd::prelude::*;
use dashmap::DashMap;
use crate::keys::derived_key;
use crate::policy::RateLimit;
use crate::store::store_get;
use crate::store::store_insert;
use crate::store::store_new;
use crate::store::usage_map;
use crate::store::usage_empty;
use crate::store::UsageRecord;

verus! {

/// The outcome of one admission decision: either the request is allowed,
/// carrying how many requests remain in the window, or it is denied,
/// carrying the timestamp at which the window expires and a retry may
/// succeed.
#[derive(Debug, Clone, Copy, PartialEq, Eq, Structural)]
pub enum Decision {
    Allow(u64),
    Deny(u64),
}

/// The record written when a window is opened at `now`: one request is
/// consumed immediately, so `limit - 1` remain, and the window expires
/// `duration` seconds later.
pub open spec fn fresh_record(p: RateLimit, now: u64) -> UsageRecord {
    (((p.limit - 1) as u64), ((now + p.duration) as u64))
}

/// The fixed-window decision for one key, as a pure function of the
/// key's current record (None when the key is unseen), the policy, and
/// the clock. Returns the decision and the record the store holds
/// afterwards:
/// - no record: open a fresh window and allow;
/// - window expired (expiry <= now): reset unconditionally and allow;
/// - requests remaining: decrement and allow;
/// - exhausted: deny with the expiry as retry-after, changing nothing.
pub open spec fn spec_decide(rec: Option<UsageRecord>, p: RateLimit, now: u64) -> (
    Decision,
    UsageRecord,
) {
    match rec {
        None => (Decision::Allow((p.limit - 1) as u64), fresh_record(p, now)),
        Some(r) => if r.1 <= now {
            (Decision::Allow((p.limit - 1) as u64), fresh_record(p, now))
        } else if r.0 > 0 {
            (Decision::Allow((r.0 - 1) as u64), (((r.0 - 1) as u64), r.1))
        } else {
            (Decision::Deny(r.1), r)
        },
    }
}

/// Executes one fixed-window decision. Pure in-memory arithmetic; the
/// result and successor record are exactly `spec_decide`.
pub fn decide(rec: Option<UsageRecord>, p: &RateLimit, now: u64) -> (r: (Decision, UsageRecord))
    requires
        p.wf(),
        now + p.duration <= u64::MAX,
    ensures
        r == spec_decide(rec, *p, now),
{
    match rec {
        None => (Decision::Allow(p.limit - 1), (p.limit - 1, now + p.duration)),
        Some(pair) => {
            let count = pair.0;
            let refresh_time = pair.1;
            if refresh_time <= now {
                (Decision::Allow(p.limit - 1), (p.limit - 1, now + p.duration))
            } else if count > 0 {
                (Decision::Allow(count - 1), (count - 1, refresh_time))
            } else {
                (Decision::Deny(refresh_time), (count, refresh_time))
            }
        },
    }
}

/// Returned to a denied caller: the timestamp at which the current
/// window expires and the counter refreshes.
#[derive(Debug, Clone, Copy, PartialEq, Eq, Structural)]
pub struct RateLimitedError {
    pub time_when_refreshed: u64,
}

impl RateLimitedError {
    pub fn new(refresh_time: u64) -> (r: Self)
        ensures
            r.time_when_refreshed == refresh_time,
    {
        RateLimitedError { time_when_refreshed: refresh_time }
    }
}

/// The admission engine and its usage store. Owns every usage record:
/// records are created lazily on a key's first request and mutated only
/// by `log_usage`.
pub struct RateLimiter {
    usage_counter: DashMap<String, UsageRecord>,
}

impl View for RateLimiter {
    type V = Map<Seq<char>, UsageRecord>;

    closed spec fn view(&self) -> Map<Seq<char>, UsageRecord> {
        usage_map(self.usage_counter)
    }
}

impl RateLimiter {
    /// A limiter with an empty store: no key has been seen.
    pub fn new() -> (s: Self)
        ensures
            s@ == usage_empty(),
    {
        RateLimiter { usage_counter: store_new() }
    }

    /// The record currently held for a key, if the key has been seen.
    pub open spec fn spec_record(self, key: Seq<char>) -> Option<UsageRecord> {
        if self@.contains_key(key) {
            Some(self@[key])
        } else {
            None
        }
    }

    /// Records one request against (route, bearer_token) under the given
    /// policy at time `now`, and decides it.
    ///
    /// The store changes exactly at the derived key, which afterwards
    /// holds the successor record of `spec_decide`; an allowed request
    /// returns the remaining count with the window expiry, a denied one
    /// returns the expiry as the time to retry. Denial never mutates.
    /// Success if and only if the key is unseen, its window has expired,
    /// or requests remain.
    pub fn log_usage(
        &mut self,
        route: &str,
        bearer_token: &str,
        rate_limit: &RateLimit,
        now: u64,
    ) -> (r: Result<(u64, u64), RateLimitedError>)
        requires
            rate_limit.wf(),
            now + rate_limit.duration <= u64::MAX,
        ensures
            ({
                let key = derived_key(route@, bearer_token@);
                let step = spec_decide(old(self).spec_record(key), *rate_limit, now);
                &&& final(self)@ == old(self)@.insert(key, step.1)
                &&& r == (match step.0 {
                    Decision::Allow(remaining) => Ok::<(u64, u64), RateLimitedError>(
                        (remaining, step.1.1),
                    ),
                    Decision::Deny(refresh_time) => Err::<(u64, u64), RateLimitedError>(
                        RateLimitedError { time_when_refreshed: refresh_time },
                    ),
                })
            }),
    {
        let hashed_key = crate::keys::derive(route, bearer_token);
        let previous = store_get(&self.usage_counter, &hashed_key);
        let (decision, record) = decide(previous, rate_limit, now);
        match decision {
            Decision::Allow(remaining) => {
                store_insert(&mut self.usage_counter, hashed_key, record);
                Ok((remaining, record.1))
            },
            Decision::Deny(refresh_time) => {
                proof {
                    let key = derived_key(route@, bearer_token@);
                    assert(self@.insert(key, record) =~= self@);
                }
                Err(RateLimitedError::new(refresh_time))
            },
        }
    }
}

/// A record is well formed for a policy when its remaining count is
/// strictly below the limit: immediately after any decision the count
/// lies in [0, limit - 1].
pub open spec fn record_wf(rec: UsageRecord, p: RateLimit) -> bool {
    rec.0 < p.limit
}

/// Law: the usage-record invariant is established and preserved. For a
/// well-formed policy, the record a decision writes always has a
/// remaining count in [0, limit - 1]; the count is unsigned, so it is
/// never negative and the decrement never underflows.
pub proof fn lemma_record_invariant(rec: Option<UsageRecord>, p: RateLimit, now: u64)
    requires
        p.wf(),
        rec matches Some(r) ==> record_wf(r, p),
    ensures
        record_wf(spec_decide(rec, p, now).1, p),
{
}

/// Law: once a record's window has expired, one request resets it,
/// regardless of whether the previous window was exhausted. The request
/// is allowed with `limit - 1` remaining, and the new expiry strictly
/// exceeds the old one.
pub proof fn lemma_window_reset(rec: UsageRecord, p: RateLimit, now: u64)
    requires
        p.wf(),
        now + p.duration <= u64::MAX,
        rec.1 <= now,
    ensures
        spec_decide(Some(rec), p, now).0 == Decision::Allow((p.limit - 1) as u64),
        spec_decide(Some(rec), p, now).1 == fresh_record(p, now),
        spec_decide(Some(rec), p, now).1.1 > rec.1,
{
}

/// Law: keys are isolated. A decision updates the store at one key
/// only, so the record of every other key - and with it that key's next
/// outcome - is untouched. Together with `log_usage`'s contract this
/// covers any pair of (route, credential) inputs whose derived keys
/// differ.
pub proof fn lemma_key_isolation(
    m: Map<Seq<char>, UsageRecord>,
    touched: Seq<char>,
    other: Seq<char>,
    rec: UsageRecord,
)
    requires
        touched != other,
    ensures
        m.insert(touched, rec).contains_key(other) == m.contains_key(other),
        m.contains_key(other) ==> m.insert(touched, rec)[other] == m[other],
{
}

/// The record under a fresh key after a burst of `n` requests issued at
/// the single instant `t0`: None before the first request, then the
/// successor record of each decision in turn.
pub open spec fn spec_burst(p: RateLimit, t0: u64, n: nat) -> Option<UsageRecord>
    decreases n,
{
    if n == 0 {
        None
    } else {
        Some(spec_decide(spec_burst(p, t0, (n - 1) as nat), p, t0).1)
    }
}

/// The decision the n-th request of such a burst receives, counting
/// from 1.
pub open spec fn spec_burst_decision(p: RateLimit, t0: u64, n: nat) -> Decision {
    spec_decide(spec_burst(p, t0, (n - 1) as nat), p, t0).0
}

/// Law: a burst against a fresh key. With policy (limit L, window W)
/// and no time advance, requests 1..=L are allowed with remaining
/// values L-1, L-2, ..., 0 in order, and every request after the L-th
/// is denied with retry-after t0 + W; the stored expiry stays t0 + W
/// throughout.
pub proof fn lemma_burst(p: RateLimit, t0: u64, n: nat)
    requires
        p.wf(),
        1 <= n,
        t0 + p.duration <= u64::MAX,
    ensures
        n <= p.limit ==> spec_burst_decision(p, t0, n) == Decision::Allow((p.limit - n) as u64),
        n > p.limit ==> spec_burst_decision(p, t0, n) == Decision::Deny(
            (t0 + p.duration) as u64,
        ),
        spec_burst(p, t0, n) == Some(
            (
                (if n <= p.limit {
                    (p.limit - n) as u64
                } else {
                    0u64
                }),
                (t0 + p.duration) as u64,
            ),
        ),
    decreases n,
{
    if n > 1 {
        lemma_burst(p, t0, (n - 1) as nat);
    }
}

/// How many requests of such a burst of `n` are allowed.
pub open spec fn spec_burst_allowed(p: RateLimit, t0: u64, n: nat) -> nat
    decreases n,
{
    if n == 0 {
        0
    } else {
        spec_burst_allowed(p, t0, (n - 1) as nat) + (if spec_burst_decision(p, t0, n) is Allow {
            1nat
        } else {
            0nat
        })
    }
}

/// Law: however many same-instant requests contend for one key, at most
/// `limit` of them are allowed: a serialized burst of `n` requests
/// yields exactly min(n, limit) Allow outcomes and n - min(n, limit)
/// Deny outcomes.
pub proof fn lemma_burst_allow_count(p: RateLimit, t0: u64, n: nat)
    requires
        p.wf(),
        t0 + p.duration <= u64::MAX,
    ensures
        spec_burst_allowed(p, t0, n) == if n <= p.limit {
            n
        } else {
            p.limit as nat
        },
    decreases n,
{
    if n > 0 {
        lemma_burst_allow_count(p, t0, (n - 1) as nat);
        lemma_burst(p, t0, n);
    }
}

} // verus!
