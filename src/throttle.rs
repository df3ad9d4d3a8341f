//! The throttle: admission decisions and attempt counting for one identity.
use crate::cache_calls::{cache_expire, cache_get, cache_remove, cache_set};
use cache_ro::Cache;
use std::time::Duration;
use vstd::prelude::*;

verus! {

/// The attempt count that a stored entry stands for: an absent entry counts
/// as no attempt at all.
pub open spec fn count_of(stored: Option<u32>) -> nat {
    match stored {
        None => 0,
        Some(v) => v as nat,
    }
}

/// The count that a hit writes over `stored`: one more attempt, held at
/// `u32::MAX` once the counter is full (a full counter blocks every limit).
pub open spec fn next_count_spec(stored: Option<u32>) -> u32 {
    match stored {
        None => 1,
        Some(v) => if v < u32::MAX { (v + 1) as u32 } else { v },
    }
}

/// The stored entry after `n` hits on a key that had none, all within one
/// window.
pub open spec fn count_after_hits(n: nat) -> Option<u32>
    decreases n,
{
    if n == 0 {
        None
    } else {
        Some(next_count_spec(count_after_hits((n - 1) as nat)))
    }
}

/// An error of the cache, with the message it gave.
#[derive(Debug, PartialEq, Eq)]
pub enum ThrottleError {
    /// Writing the new count failed.
    Write(String),
    /// Deleting the entry failed.
    Remove(String),
}

/// Throttles the attempts of one identity (an IP address, say): at most
/// `max_attempts` within a window of `period`, counted in the cache under
/// the key `prefix + ip`.
pub struct ThrottlesService {
    ip: String,
    max_attempts: u32,
    period: Duration,
    prefix: String,
}

impl ThrottlesService {
    /// The identity that is throttled.
    pub closed spec fn identity(&self) -> Seq<char> {
        self.ip@
    }

    /// The number of attempts admitted within one window.
    pub closed spec fn limit(&self) -> u32 {
        self.max_attempts
    }

    /// The length of a window.
    pub closed spec fn window(&self) -> Duration {
        self.period
    }

    /// The prefix that keeps this throttle's keys apart from other entries.
    pub closed spec fn key_prefix(&self) -> Seq<char> {
        self.prefix@
    }

    /// The cache key of this throttle.
    pub open spec fn key_spec(&self) -> Seq<char> {
        self.key_prefix() + self.identity()
    }

    /// Whether an identity whose entry is `stored` may go on.
    pub open spec fn allows_spec(&self, stored: Option<u32>) -> bool {
        count_of(stored) < self.limit() as nat
    }

    /// The time to write with the next count: what the entry has left, or a
    /// whole window where the cache reports nothing.
    pub open spec fn expire_or_window_spec(&self, remaining: Option<Duration>) -> Duration {
        match remaining {
            None => self.window(),
            Some(d) => d,
        }
    }

    /// A throttle of `ip`, admitting `max_attempts` per `period`, with cache
    /// keys that start with `prefix`. No input is refused.
    pub fn new(ip: String, max_attempts: u32, period: Duration, prefix: &str) -> (r: Self)
        ensures
            r.identity() == ip@,
            r.limit() == max_attempts,
            r.window() == period,
            r.key_prefix() == prefix@,
    {
        ThrottlesService { ip, max_attempts, period, prefix: String::from_str(prefix) }
    }

    /// The cache key: the prefix followed by the identity.
    pub fn key(&self) -> (r: String)
        ensures
            r@ == self.key_spec(),
    {
        let mut k = self.prefix.clone();
        k.append(self.ip.as_str());
        k
    }

    /// Decides on the entry that the cache holds for this throttle's key:
    /// an identity may go on while its count is below the limit.
    pub fn allows(&self, stored: Option<u32>) -> (r: bool)
        ensures
            r == self.allows_spec(stored),
            r == (count_of(stored) < self.limit() as nat),
    {
        let v: u32 = match stored {
            None => 0,
            Some(v) => v,
        };
        v < self.max_attempts
    }

    /// The time to keep the next count for, given what the cache says the
    /// entry has left: that time, or a whole window where it says nothing.
    pub fn expire_or_window(&self, remaining: Option<Duration>) -> (r: Duration)
        ensures
            r == self.expire_or_window_spec(remaining),
            remaining is None ==> r == self.window(),
    {
        match remaining {
            None => self.period,
            Some(d) => d,
        }
    }

    /// The count that a hit writes over the entry `stored`.
    pub fn next_count(stored: Option<u32>) -> (r: u32)
        ensures
            r == next_count_spec(stored),
            stored is None ==> r == 1,
            stored is Some && stored->0 < u32::MAX ==> r == stored->0 + 1,
    {
        match stored {
            None => 1,
            Some(v) => if v < u32::MAX { v + 1 } else { v },
        }
    }

    /// Whether this identity may make another attempt now: its count in the
    /// cache (none counts as zero) is below the limit. With a limit of zero
    /// it never may.
    pub fn can_go(&mut self, cache: &Cache) -> (r: bool)
        ensures
            *final(self) == *old(self),
            old(self).limit() == 0 ==> !r,
    {
        let stored = self.get_value(cache);
        self.allows(stored)
    }

    /// The count that the cache holds for this throttle's key, if any.
    fn get_value(&mut self, cache: &Cache) -> (r: Option<u32>)
        ensures
            *final(self) == *old(self),
    {
        let key = self.key();
        cache_get(cache, key.as_str())
    }

    /// The time that this identity's current window has left, or a whole
    /// window where the cache holds no expiry for the key.
    pub fn get_expire(&mut self, cache: &Cache) -> (r: Duration)
        ensures
            *final(self) == *old(self),
    {
        let key = self.key();
        let remaining = cache_expire(cache, key.as_str());
        self.expire_or_window(remaining)
    }

    /// Records one attempt: writes the next count under this throttle's key,
    /// to live for what the window has left (a whole window for a first
    /// hit), so that the window stays anchored at the first hit.
    pub fn hit(&mut self, cache: &Cache) -> (r: Result<(), ThrottleError>)
        ensures
            *final(self) == *old(self),
            r matches Err(e) ==> e is Write,
    {
        let key = self.key();
        let expire = self.get_expire(cache);
        let stored = self.get_value(cache);
        let count = Self::next_count(stored);
        match cache_set(cache, key.as_str(), count, expire) {
            Ok(()) => Ok(()),
            Err(message) => Err(ThrottleError::Write(message)),
        }
    }

    /// Clears this identity's count, whether or not it had one.
    pub fn remove(&self, cache: &Cache) -> (r: Result<(), ThrottleError>)
        ensures
            r matches Err(e) ==> e is Remove,
    {
        let key = self.key();
        match cache_remove(cache, key.as_str()) {
            Ok(()) => Ok(()),
            Err(message) => Err(ThrottleError::Remove(message)),
        }
    }
}

/// An identity that was never hit may go, whatever the limit, as long as the
/// limit admits at least one attempt.
pub proof fn lemma_fresh_identity_may_go(t: &ThrottlesService)
    requires
        t.limit() >= 1,
    ensures
        t.allows_spec(None),
{
}

/// `n` hits within one window on a key with no entry leave a count of `n`.
pub proof fn lemma_hits_are_counted(n: nat)
    requires
        1 <= n <= u32::MAX,
    ensures
        count_after_hits(n) == Some(n as u32),
    decreases n,
{
    if n > 1 {
        lemma_hits_are_counted((n - 1) as nat);
    } else {
        assert(count_after_hits(0) == None::<u32>);
    }
}

/// An identity is blocked exactly when its stored count has reached the limit.
pub proof fn lemma_blocked_iff_limit_reached(t: &ThrottlesService, stored: Option<u32>)
    ensures
        !t.allows_spec(stored) <==> count_of(stored) >= t.limit() as nat,
{
}

/// Once the entry of a key is gone, whether removed or expired, the throttle
/// treats the identity as one never hit: it may go whenever the limit is not
/// zero, and its next hit writes a count of one for a whole window.
pub proof fn lemma_absent_entry_starts_over(t: &ThrottlesService)
    ensures
        t.allows_spec(None) <==> t.limit() >= 1,
        next_count_spec(None) == 1,
        t.expire_or_window_spec(None) == t.window(),
{
}

} // verus!
