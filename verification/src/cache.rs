//! A snapshot of a result set with the moment it was taken, and whether it
//! may still be used.

use crate::clock::utc_now;
use vstd::prelude::*;

verus! {

/// How long a snapshot stays fresh, in seconds.
pub const CACHE_LIFETIME_SECONDS: i64 = 3600;

/// Nanoseconds in one second.
pub const SECOND_NANOS: i128 = 1_000_000_000;

/// An instant: seconds and nanoseconds since the start of 1970 (UTC).
#[derive(Clone, Copy, Debug, PartialEq, Eq, Structural)]
pub struct Timestamp {
    pub seconds: i64,
    pub nanoseconds: u32,
}

/// The nanoseconds from `earlier` to `later` (negative where `later` comes
/// first).
pub open spec fn nanos_between(earlier: Timestamp, later: Timestamp) -> int {
    (later.seconds - earlier.seconds) * SECOND_NANOS + (later.nanoseconds - earlier.nanoseconds)
}

/// A payload with the instant at which it was captured.
#[derive(Debug)]
pub struct CacheEntry<T> {
    pub timestamp: Timestamp,
    pub data: T,
}

impl<T> CacheEntry<T> {
    /// Whether the entry is fresh at `now`: less than the lifetime has passed
    /// since it was captured.
    pub open spec fn fresh_at(&self, now: Timestamp) -> bool {
        nanos_between(self.timestamp, now) < CACHE_LIFETIME_SECONDS * SECOND_NANOS
    }

    /// An entry for `data`, captured at `timestamp`.
    pub fn captured_at(data: T, timestamp: Timestamp) -> (entry: Self)
        ensures
            entry.data == data,
            entry.timestamp == timestamp,
    {
        CacheEntry { timestamp, data }
    }

    /// An entry for `data`, captured now.
    pub fn new(data: T) -> (entry: Self)
        ensures
            entry.data == data,
            entry.timestamp.nanoseconds < SECOND_NANOS,
    {
        let now = utc_now();
        CacheEntry { timestamp: Timestamp { seconds: now.seconds, nanoseconds: now.nanoseconds }, data }
    }

    /// Whether the entry is fresh at `now`. See [`CacheEntry::fresh_at`].
    pub fn is_fresh_at(&self, now: &Timestamp) -> (fresh: bool)
        ensures
            fresh == self.fresh_at(*now),
    {
        let seconds: i128 = now.seconds as i128 - self.timestamp.seconds as i128;
        let nanos: i128 = now.nanoseconds as i128 - self.timestamp.nanoseconds as i128;
        assert(seconds * SECOND_NANOS + nanos == nanos_between(self.timestamp, *now)) by {
            assert(-0x1_0000_0000_0000_0000 < seconds < 0x1_0000_0000_0000_0000);
        }
        assert(-0x1_0000_0000_0000_0000 * 1_000_000_000 <= seconds * SECOND_NANOS
            <= 0x1_0000_0000_0000_0000 * 1_000_000_000) by (nonlinear_arith)
            requires
                -0x1_0000_0000_0000_0000 < seconds < 0x1_0000_0000_0000_0000,
                SECOND_NANOS == 1_000_000_000,
        ;
        seconds * SECOND_NANOS + nanos < (CACHE_LIFETIME_SECONDS as i128) * SECOND_NANOS
    }

    /// Whether the entry is fresh now.
    pub fn is_fresh(&self) -> (fresh: bool)
        ensures
            exists|now: Timestamp| now.nanoseconds < SECOND_NANOS && fresh == self.fresh_at(now),
    {
        let now = utc_now();
        let at = Timestamp { seconds: now.seconds, nanoseconds: now.nanoseconds };
        self.is_fresh_at(&at)
    }

    /// The payload, where it may stand in for a new fetch at `now`: the
    /// caller does not insist on one, and the entry is fresh. It is handed
    /// out as it was stored.
    pub fn usable_at(entry: Option<Self>, force_refresh: bool, now: &Timestamp) -> (data: Option<T>)
        ensures
            data is Some <==> !force_refresh && entry is Some && entry.unwrap().fresh_at(*now),
            data matches Some(d) ==> d == entry.unwrap().data,
    {
        match entry {
            Some(e) => {
                if !force_refresh && e.is_fresh_at(now) {
                    Some(e.data)
                } else {
                    None
                }
            },
            None => None,
        }
    }
}

/// An entry becomes stale exactly when its lifetime has passed, and stays
/// stale from then on.
pub proof fn lemma_freshness_boundary<T>(entry: CacheEntry<T>, now: Timestamp, later: Timestamp)
    requires
        nanos_between(now, later) >= 0,
    ensures
        entry.fresh_at(now) <==> nanos_between(entry.timestamp, now) < 3_600_000_000_000,
        !entry.fresh_at(now) ==> !entry.fresh_at(later),
{
}

} // verus!
