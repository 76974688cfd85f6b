//! The cache of detected screens.
//!
//! Screen detection is cached for a short time-to-live to avoid repeated
//! system queries; a display reconfiguration invalidates the cache. Times
//! are milliseconds on a monotonic clock that the caller reads.

use vstd::prelude::*;

use crate::event_coalescer::elapsed;

verus! {

/// Cached screen information with the time it was stored.
pub struct ScreenCache<T> {
    screens: Vec<T>,
    cached_at: Option<u64>,
    ttl_ms: u64,
}

impl<T> ScreenCache<T> {
    /// The cached screens.
    pub closed spec fn screens_spec(&self) -> Seq<T> {
        self.screens@
    }

    /// When the screens were stored; `None` when the cache expired.
    pub closed spec fn stored_at(&self) -> Option<u64> {
        self.cached_at
    }

    /// The time-to-live in milliseconds.
    pub closed spec fn ttl(&self) -> u64 {
        self.ttl_ms
    }

    /// Whether the cache holds fresh screens at time `now`.
    pub open spec fn valid_at(&self, now: u64) -> bool {
        &&& self.screens_spec().len() > 0
        &&& self.stored_at() matches Some(t) && elapsed(now, t) < self.ttl()
    }

    /// Creates an empty, expired cache.
    pub fn new(ttl_ms: u64) -> (r: Self)
        ensures
            r.screens_spec().len() == 0,
            r.stored_at() is None,
            r.ttl() == ttl_ms,
    {
        ScreenCache { screens: Vec::new(), cached_at: None, ttl_ms }
    }

    /// Checks if the cache is valid at time `now_ms`.
    pub fn is_valid(&self, now_ms: u64) -> (r: bool)
        ensures
            r == self.valid_at(now_ms),
    {
        if self.screens.len() == 0 {
            return false;
        }
        match self.cached_at {
            Some(t) => {
                let age = if now_ms >= t {
                    now_ms - t
                } else {
                    0
                };
                age < self.ttl_ms
            },
            None => false,
        }
    }

    /// Gets the cached screens if they are valid at time `now_ms`.
    pub fn get(&self, now_ms: u64) -> (r: Option<&Vec<T>>)
        ensures
            r is Some == self.valid_at(now_ms),
            r matches Some(v) ==> v@ == self.screens_spec(),
    {
        if self.is_valid(now_ms) {
            Some(&self.screens)
        } else {
            None
        }
    }

    /// Stores freshly detected screens at time `now_ms`.
    pub fn update(&mut self, screens: Vec<T>, now_ms: u64)
        ensures
            final(self).screens_spec() == screens@,
            final(self).stored_at() == Some(now_ms),
            final(self).ttl() == old(self).ttl(),
    {
        self.screens = screens;
        self.cached_at = Some(now_ms);
    }

    /// Empties the cache and marks it expired.
    pub fn invalidate(&mut self)
        ensures
            final(self).screens_spec().len() == 0,
            final(self).stored_at() is None,
            final(self).ttl() == old(self).ttl(),
    {
        self.screens = Vec::new();
        self.cached_at = None;
    }
}

/// Invalidates the screen cache so that the next query detects screens anew.
pub fn invalidate_screen_cache<T>(cache: &mut ScreenCache<T>)
    ensures
        final(cache).screens_spec().len() == 0,
        final(cache).stored_at() is None,
        final(cache).ttl() == old(cache).ttl(),
{
    cache.invalidate();
}

} // verus!

verus! {

/// Freshly stored screens are valid at the time they were stored.
pub proof fn law_update_then_valid<T>(cache: ScreenCache<T>, now: u64)
    requires
        cache.screens_spec().len() > 0,
        cache.stored_at() == Some(now),
        cache.ttl() > 0,
    ensures
        cache.valid_at(now),
{
}

/// Stored screens expire once their time-to-live has passed.
pub proof fn law_stored_screens_expire<T>(cache: ScreenCache<T>, stored: u64, now: u64)
    requires
        cache.stored_at() == Some(stored),
        now >= stored + cache.ttl(),
    ensures
        !cache.valid_at(now),
{
}

/// An invalidated cache is not valid at any time.
pub proof fn law_invalidated_never_valid<T>(cache: ScreenCache<T>, now: u64)
    requires
        cache.stored_at() is None,
    ensures
        !cache.valid_at(now),
{
}

} // verus!
