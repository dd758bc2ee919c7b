//! Time-to-live rules. The backing store drops an entry when its time to
//! live has run out, so for entries held there an absent key is a stale key.
//! This module states the rule itself: an entry is trusted while its age is
//! below its time to live, and not a second longer.

use vstd::prelude::*;

verus! {

/// Time to live of search and suggestion results: one day, in seconds.
pub const SEARCH_TTL: u64 = 86_400;

/// Time to live of sessions: ten days, in seconds.
pub const SESSION_TTL: u64 = 864_000;

/// Seconds elapsed at `now` since `since`; zero when the clock reads
/// earlier than `since`.
pub open spec fn age(since: nat, now: nat) -> nat {
    if now >= since {
        (now - since) as nat
    } else {
        0
    }
}

/// Seconds elapsed at `now` since `since`, never negative.
pub fn elapsed(since: u64, now: u64) -> (seconds: u64)
    ensures
        seconds == age(since as nat, now as nat),
{
    if now >= since {
        now - since
    } else {
        0
    }
}

/// A value together with the time it was stored and how long it may be used.
#[derive(Debug, Clone, PartialEq)]
pub struct CacheEntry {
    pub key: String,
    pub value: String,
    /// When the value was stored, in seconds.
    pub stored_at: u64,
    /// For how many seconds after `stored_at` the value may be used.
    pub ttl: u64,
}

/// An entry as plain values.
pub struct CacheEntryView {
    pub key: Seq<char>,
    pub value: Seq<char>,
    pub stored_at: nat,
    pub ttl: nat,
}

impl CacheEntryView {
    /// The value is trusted only while `now - stored_at < ttl`.
    pub open spec fn trusted_at(self, now: nat) -> bool {
        age(self.stored_at, now) < self.ttl
    }
}

impl View for CacheEntry {
    type V = CacheEntryView;

    open spec fn view(&self) -> CacheEntryView {
        CacheEntryView {
            key: self.key@,
            value: self.value@,
            stored_at: self.stored_at as nat,
            ttl: self.ttl as nat,
        }
    }
}

impl CacheEntry {
    /// An entry for `value`, stored under `key` at `now`.
    pub fn new(key: String, value: String, now: u64, ttl: u64) -> (entry: CacheEntry)
        ensures
            entry@ == (CacheEntryView {
                key: key@,
                value: value@,
                stored_at: now as nat,
                ttl: ttl as nat,
            }),
    {
        CacheEntry { key, value, stored_at: now, ttl }
    }

    /// Whether the value may still be used at `now`.
    pub fn is_fresh(&self, now: u64) -> (yes: bool)
        ensures
            yes == self@.trusted_at(now as nat),
    {
        elapsed(self.stored_at, now) < self.ttl
    }

    /// The value, as long as it may be used at `now`.
    pub fn read(&self, now: u64) -> (value: Option<&String>)
        ensures
            value is Some <==> self@.trusted_at(now as nat),
            value matches Some(text) ==> text@ == self@.value,
    {
        if self.is_fresh(now) {
            Some(&self.value)
        } else {
            None
        }
    }

    /// The entry that takes this one's place when the value is stored anew
    /// at `now`: key and time to live stay, value and time are replaced.
    pub fn refreshed(self, value: String, now: u64) -> (entry: CacheEntry)
        ensures
            entry@ == (CacheEntryView {
                key: self@.key,
                value: value@,
                stored_at: now as nat,
                ttl: self@.ttl,
            }),
    {
        CacheEntry { key: self.key, value, stored_at: now, ttl: self.ttl }
    }
}

/// An entry with time to live `T` is trusted at every age below `T` and at no
/// age from `T` on.
pub proof fn law_ttl_boundary(entry: CacheEntryView, epsilon: nat)
    ensures
        0 < epsilon <= entry.ttl ==> entry.trusted_at(
            (entry.stored_at + entry.ttl - epsilon) as nat,
        ),
        !entry.trusted_at(entry.stored_at + entry.ttl + epsilon),
{
}

} // verus!
