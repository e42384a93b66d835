//! Guardrails: how often a principal may ask, and how large a document may be.

use crate::errors::{too_large_error, ApiError, ApiResult};
use vstd::prelude::*;

verus! {

/// A payload of `bytes` bytes exceeds `max`; a limit of 0 is none.
pub open spec fn over_limit(bytes: nat, max: u64) -> bool {
    max != 0 && bytes > max
}

/// Refuses a document whose JSON text takes more than `max` bytes; 0 is no limit.
pub fn check_document_size(text: &str, max: u64) -> (r: ApiResult<()>)
    ensures
        match r {
            Ok(_) => !over_limit(vstd::utf8::encode_utf8(text@).len(), max),
            Err(e) => over_limit(vstd::utf8::encode_utf8(text@).len(), max) && e@
                == too_large_error("document exceeds max_document_bytes"@),
        },
{
    if max == 0 {
        return Ok(());
    }
    let bytes: usize = text.as_bytes().len();
    if bytes as u64 > max {
        return Err(ApiError::payload_too_large("document exceeds max_document_bytes"));
    }
    Ok(())
}

// ---- Rate ------------------------------------------------------------------

/// A limiter of `governor` that counts for each key by itself. It holds the state
/// of `governor::RateLimiter`, whose declaration has bounds on outside traits.
#[verifier::external_body]
pub struct KeyedLimiter {
    inner: governor::DefaultKeyedRateLimiter<String>,
}

/// How many requests a minute a limiter was made for.
pub uninterp spec fn limiter_quota(l: KeyedLimiter) -> u32;

/// Calls `governor::RateLimiter::keyed` with the quota `governor::Quota::per_minute`,
/// which the limiter keeps. A quota of zero has no meaning to the crate.
#[verifier::external_body]
fn keyed_limiter(per_minute: u32) -> (r: KeyedLimiter)
    requires
        per_minute > 0,
    ensures
        limiter_quota(r) == per_minute,
{
    KeyedLimiter {
        inner: governor::RateLimiter::keyed(
            governor::Quota::per_minute(std::num::NonZeroU32::new(per_minute).unwrap()),
        ),
    }
}

/// The limiter can give this answer to a request of the key: none where the request
/// passes, or a wait in whole seconds. To one request another answer may be given than
/// to the next.
pub uninterp spec fn limiter_tells(l: KeyedLimiter, key: Seq<char>, wait: Option<u64>) -> bool;

/// Calls `governor::RateLimiter::check_key`. A request that comes too early is told
/// how many whole seconds it would have to wait, by `wait_time_from` at the time of
/// the limiter's clock; the crate counts the wait in nanoseconds of 64 bits. Which
/// requests come too early depends on the clock and on those before, so it is claimed
/// only that this limiter gave the answer to this key.
#[verifier::external_body]
fn limiter_check(limiter: &KeyedLimiter, key: &str) -> (r: Option<u64>)
    ensures
        limiter_tells(*limiter, key@, r),
        r matches Some(secs) ==> secs <= u64::MAX / 1_000_000_000,
{
    limiter.inner.check_key(&key.to_string()).err().map(
        |n| n.wait_time_from(governor::clock::Clock::now(limiter.inner.clock())).as_secs(),
    )
}

/// How often each principal may ask.
pub struct RateGuard {
    limiter: Option<KeyedLimiter>,
}

/// What a request is told on the word of the limiter: nothing, or in how many
/// seconds to come back.
pub open spec fn rate_outcome(wait: Option<u64>) -> Result<(), int> {
    match wait {
        None => Ok(()),
        Some(secs) => Err(secs + 1),
    }
}

/// What a request is told on the word of the limiter: a wait that is not a whole
/// number of seconds is rounded up.
pub fn rate_answer(wait: Option<u64>) -> (r: Result<(), u64>)
    requires
        wait matches Some(secs) ==> secs < u64::MAX,
    ensures
        follows(r, wait),
{
    match wait {
        None => Ok(()),
        Some(secs) => Err(secs + 1),
    }
}

/// The verdict on a request is the one that follows from the answer of the limiter.
pub open spec fn follows(verdict: Result<(), u64>, wait: Option<u64>) -> bool {
    match verdict {
        Ok(_) => rate_outcome(wait) == Ok::<(), int>(()),
        Err(n) => rate_outcome(wait) == Err::<(), int>(n as int),
    }
}

impl RateGuard {
    /// The limiter of the guard can give this answer to a request of the key. Without
    /// a limiter every request passes.
    pub closed spec fn told(self, key: Seq<char>, wait: Option<u64>) -> bool {
        match self.limiter {
            Some(l) => limiter_tells(l, key, wait),
            None => wait is None,
        }
    }

    pub closed spec fn limits(self) -> bool {
        self.limiter is Some
    }

    /// How many requests a minute the guard lets pass for each key; 0 is no limit.
    pub closed spec fn quota(self) -> u32 {
        match self.limiter {
            Some(l) => limiter_quota(l),
            None => 0,
        }
    }

    /// A guard that lets each principal ask `per_minute` times a minute; 0 is no
    /// limit.
    pub fn new(per_minute: u32) -> (r: RateGuard)
        ensures
            r.limits() == (per_minute > 0),
            r.quota() == per_minute,
    {
        if per_minute > 0 {
            RateGuard { limiter: Some(keyed_limiter(per_minute)) }
        } else {
            RateGuard { limiter: None }
        }
    }

    /// Lets a request of `key` pass, or tells in how many seconds to come back.
    /// Without a limit every request passes.
    pub fn check(&self, key: &str) -> (r: Result<(), u64>)
        ensures
            exists|wait: Option<u64>| #[trigger] self.told(key@, wait) && follows(r, wait),
            !self.limits() ==> r is Ok,
            r matches Err(secs) ==> secs >= 1,
    {
        let wait: Option<u64> = match &self.limiter {
            None => None,
            Some(l) => limiter_check(l, key),
        };
        assert(self.told(key@, wait));
        rate_answer(wait)
    }
}

} // verus!
