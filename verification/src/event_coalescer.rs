//! Event coalescing for rapid window events.
//!
//! During a window drag macOS sends many move and resize events. The
//! coalescer remembers, for each (process, event type) pair, when an event
//! was last processed, and skips events that arrive within the coalesce
//! window after it. Times are milliseconds on a monotonic clock that the
//! caller reads.

use vstd::prelude::*;

use crate::keyed::{
    key_in, keyed_map, lemma_keyed_map_empty, lemma_keyed_map_index, lemma_keyed_map_prefix,
    lemma_keyed_map_push, lemma_keyed_map_update, restrict_keys, unique_keys,
};
use crate::observer::WindowEventType;

verus! {

/// Key for tracking coalesced events: (pid, event type discriminant).
pub type CoalesceKey = (i32, u8);

/// The time from `last` to `now`; zero when the clock reads earlier than `last`.
pub open spec fn elapsed(now: u64, last: u64) -> int {
    if now >= last {
        now - last
    } else {
        0
    }
}

/// Entry tracking the last processed time for an event.
#[derive(Debug, Clone, Copy)]
pub struct CoalesceEntry {
    /// When the last event was processed (milliseconds).
    pub last_processed: u64,
}

impl CoalesceEntry {
    /// Creates an entry processed at `now_ms`.
    pub fn new(now_ms: u64) -> (r: Self)
        ensures
            r.last_processed == now_ms,
    {
        CoalesceEntry { last_processed: now_ms }
    }

    /// Checks if at least `window_ms` passed since the last processed event.
    pub fn should_process(&self, window_ms: u64, now_ms: u64) -> (r: bool)
        ensures
            r == (elapsed(now_ms, self.last_processed) >= window_ms),
    {
        let elapsed_ms = if now_ms >= self.last_processed {
            now_ms - self.last_processed
        } else {
            0
        };
        elapsed_ms >= window_ms
    }

    /// Updates the last processed time to `now_ms`.
    pub fn mark_processed(&mut self, now_ms: u64)
        ensures
            final(self).last_processed == now_ms,
    {
        self.last_processed = now_ms;
    }
}

/// The discriminant used in coalescing keys for an event type.
pub open spec fn event_discriminant(e: WindowEventType) -> u8 {
    match e {
        WindowEventType::Created => 0,
        WindowEventType::Destroyed => 1,
        WindowEventType::Focused => 2,
        WindowEventType::Unfocused => 3,
        WindowEventType::Moved => 4,
        WindowEventType::Resized => 5,
        WindowEventType::Minimized => 6,
        WindowEventType::Unminimized => 7,
        WindowEventType::TitleChanged => 8,
        WindowEventType::AppActivated => 9,
        WindowEventType::AppDeactivated => 10,
        WindowEventType::AppHidden => 11,
        WindowEventType::AppShown => 12,
    }
}

/// Creates a coalesce key from pid and event type.
pub fn make_key(pid: i32, event_type: WindowEventType) -> (r: CoalesceKey)
    ensures
        r == (pid, event_discriminant(event_type)),
{
    let event_discriminant: u8 = match event_type {
        WindowEventType::Created => 0,
        WindowEventType::Destroyed => 1,
        WindowEventType::Focused => 2,
        WindowEventType::Unfocused => 3,
        WindowEventType::Moved => 4,
        WindowEventType::Resized => 5,
        WindowEventType::Minimized => 6,
        WindowEventType::Unminimized => 7,
        WindowEventType::TitleChanged => 8,
        WindowEventType::AppActivated => 9,
        WindowEventType::AppDeactivated => 10,
        WindowEventType::AppHidden => 11,
        WindowEventType::AppShown => 12,
    };
    (pid, event_discriminant)
}

/// One event against the table of last processed times.
///
/// The event is skipped when its key was processed less than `window`
/// milliseconds before `now`; otherwise it is processed and its key
/// records `now`.
pub open spec fn coalesce_step(table: Map<CoalesceKey, u64>, key: CoalesceKey, now: u64, window: u64) -> (
    Map<CoalesceKey, u64>,
    bool,
) {
    if table.contains_key(key) && elapsed(now, table[key]) < window {
        (table, false)
    } else {
        (table.insert(key, now), true)
    }
}

/// Tracks the last processed time of each (pid, event type) pair.
pub struct EventCoalescer {
    entries: Vec<(CoalesceKey, CoalesceEntry)>,
    coalesce_window_ms: u64,
}

impl EventCoalescer {
    /// The pairs of key and last processed time.
    pub closed spec fn pairs(&self) -> Seq<(CoalesceKey, u64)> {
        self.entries@.map_values(|e: (CoalesceKey, CoalesceEntry)| (e.0, e.1.last_processed))
    }

    /// The last processed time of each key.
    pub closed spec fn view(&self) -> Map<CoalesceKey, u64> {
        keyed_map(self.pairs())
    }

    /// The coalesce window in milliseconds.
    pub closed spec fn window(&self) -> u64 {
        self.coalesce_window_ms
    }

    /// Whether no key is recorded twice.
    pub closed spec fn wf(&self) -> bool {
        unique_keys(self.pairs())
    }

    /// Creates a coalescer with the given coalesce window.
    pub fn new(coalesce_ms: u64) -> (r: Self)
        ensures
            r.wf(),
            r.window() == coalesce_ms,
            r.view() == Map::<CoalesceKey, u64>::empty(),
    {
        let r = EventCoalescer { entries: Vec::new(), coalesce_window_ms: coalesce_ms };
        proof {
            lemma_keyed_map_empty(r.pairs());
        }
        r
    }

    /// Checks if an event should be processed or coalesced.
    ///
    /// Returns `true` and records `now_ms` when the event is to be processed.
    pub fn should_process(&mut self, pid: i32, event_type: WindowEventType, now_ms: u64) -> (r:
        bool)
        requires
            old(self).wf(),
        ensures
            final(self).wf(),
            final(self).window() == old(self).window(),
            (final(self).view(), r) == coalesce_step(
                old(self).view(),
                (pid, event_discriminant(event_type)),
                now_ms,
                old(self).window(),
            ),
    {
        let key = make_key(pid, event_type);
        let ghost old_pairs = self.pairs();
        let mut i: usize = 0;
        while i < self.entries.len()
            invariant
                i <= self.entries@.len(),
                self.pairs() == old_pairs,
                old(self).pairs() == old_pairs,
                key == (pid, event_discriminant(event_type)),
                unique_keys(old_pairs),
                self.coalesce_window_ms == old(self).coalesce_window_ms,
                forall|j: int| 0 <= j < i ==> old_pairs[j].0 != key,
            decreases self.entries@.len() - i,
        {
            if self.entries[i].0.0 == key.0 && self.entries[i].0.1 == key.1 {
                proof {
                    assert(old_pairs[i as int].0 == key);
                    lemma_keyed_map_index(old_pairs, i as int);
                    assert(old(self).view()[key] == self.entries@[i as int].1.last_processed);
                }
                if !self.entries[i].1.should_process(self.coalesce_window_ms, now_ms) {
                    return false;
                }
                self.entries.set(i, (key, CoalesceEntry::new(now_ms)));
                proof {
                    lemma_keyed_map_update(old_pairs, i as int, now_ms);
                    assert(self.pairs() =~= old_pairs.update(i as int, (key, now_ms)));
                }
                return true;
            }
            i = i + 1;
        }
        assert(!key_in(old_pairs, key));
        self.entries.push((key, CoalesceEntry::new(now_ms)));
        proof {
            lemma_keyed_map_push(old_pairs, key, now_ms);
            assert(self.pairs() =~= old_pairs.push((key, now_ms)));
        }
        true
    }

    /// Clears all entries for a given PID.
    pub fn clear_pid(&mut self, pid: i32)
        requires
            old(self).wf(),
        ensures
            final(self).wf(),
            final(self).window() == old(self).window(),
            final(self).view() == restrict_keys(old(self).view(), |k: CoalesceKey| k.0 != pid),
    {
        let ghost old_pairs = self.pairs();
        let ghost keep = |k: CoalesceKey| k.0 != pid;
        let mut kept: Vec<(CoalesceKey, CoalesceEntry)> = Vec::new();
        let mut i: usize = 0;
        while i < self.entries.len()
            invariant
                i <= self.entries@.len(),
                self.pairs() == old_pairs,
                old(self).pairs() == old_pairs,
                self.coalesce_window_ms == old(self).coalesce_window_ms,
                unique_keys(old_pairs),
                keep == (|k: CoalesceKey| k.0 != pid),
                unique_keys(kept@.map_values(|e: (CoalesceKey, CoalesceEntry)| (e.0, e.1.last_processed))),
                keyed_map(kept@.map_values(|e: (CoalesceKey, CoalesceEntry)| (e.0, e.1.last_processed)))
                    == restrict_keys(keyed_map(old_pairs.subrange(0, i as int)), keep),
            decreases self.entries@.len() - i,
        {
            let ghost kept_pairs = kept@.map_values(
                |e: (CoalesceKey, CoalesceEntry)| (e.0, e.1.last_processed),
            );
            proof {
                lemma_keyed_map_prefix(old_pairs, i as int);
            }
            let ghost k = old_pairs[i as int].0;
            let ghost v = old_pairs[i as int].1;
            let ghost prefix = keyed_map(old_pairs.subrange(0, i as int));
            if self.entries[i].0.0 != pid {
                let entry = self.entries[i];
                kept.push(entry);
                proof {
                    assert(!key_in(kept_pairs, k)) by {
                        if key_in(kept_pairs, k) {
                            let a = choose|a: int|
                                0 <= a < kept_pairs.len() && (#[trigger] kept_pairs[a]).0 == k;
                            lemma_keyed_map_index(kept_pairs, a);
                        }
                    }
                    lemma_keyed_map_push(kept_pairs, k, v);
                    assert(kept@.map_values(
                        |e: (CoalesceKey, CoalesceEntry)| (e.0, e.1.last_processed),
                    ) =~= kept_pairs.push((k, v)));
                    assert(restrict_keys(prefix.insert(k, v), keep) =~= restrict_keys(
                        prefix,
                        keep,
                    ).insert(k, v));
                }
            } else {
                proof {
                    assert(restrict_keys(prefix.insert(k, v), keep) =~= restrict_keys(
                        prefix,
                        keep,
                    ));
                }
            }
            i = i + 1;
        }
        assert(old_pairs.subrange(0, old_pairs.len() as int) =~= old_pairs);
        self.entries = kept;
    }

    /// Clears all entries.
    pub fn clear(&mut self)
        ensures
            final(self).wf(),
            final(self).window() == old(self).window(),
            final(self).view() == Map::<CoalesceKey, u64>::empty(),
    {
        self.entries = Vec::new();
        proof {
            lemma_keyed_map_empty(self.pairs());
        }
    }
}

/// The coalesce window of the global coalescer (milliseconds).
pub const EVENT_COALESCE_MS: u64 = crate::constants::timing::EVENT_COALESCE_MS;

/// Checks if a move event should be processed or coalesced.
pub fn should_process_move(coalescer: &mut EventCoalescer, pid: i32, now_ms: u64) -> (r: bool)
    requires
        old(coalescer).wf(),
    ensures
        final(coalescer).wf(),
        final(coalescer).window() == old(coalescer).window(),
        (final(coalescer).view(), r) == coalesce_step(
            old(coalescer).view(),
            (pid, event_discriminant(WindowEventType::Moved)),
            now_ms,
            old(coalescer).window(),
        ),
{
    coalescer.should_process(pid, WindowEventType::Moved, now_ms)
}

/// Checks if a resize event should be processed or coalesced.
pub fn should_process_resize(coalescer: &mut EventCoalescer, pid: i32, now_ms: u64) -> (r: bool)
    requires
        old(coalescer).wf(),
    ensures
        final(coalescer).wf(),
        final(coalescer).window() == old(coalescer).window(),
        (final(coalescer).view(), r) == coalesce_step(
            old(coalescer).view(),
            (pid, event_discriminant(WindowEventType::Resized)),
            now_ms,
            old(coalescer).window(),
        ),
{
    coalescer.should_process(pid, WindowEventType::Resized, now_ms)
}

/// Clears coalescing state for a terminated app.
pub fn clear_app(coalescer: &mut EventCoalescer, pid: i32)
    requires
        old(coalescer).wf(),
    ensures
        final(coalescer).wf(),
        final(coalescer).window() == old(coalescer).window(),
        final(coalescer).view() == restrict_keys(
            old(coalescer).view(),
            |k: CoalesceKey| k.0 != pid,
        ),
{
    coalescer.clear_pid(pid);
}

} // verus!

verus! {

// ============================================================================
// Laws
// ============================================================================

/// The first event of a key is always processed.
pub proof fn law_first_event_processed(
    table: Map<CoalesceKey, u64>,
    key: CoalesceKey,
    now: u64,
    window: u64,
)
    requires
        !table.contains_key(key),
    ensures
        coalesce_step(table, key, now, window).1,
{
}

/// An event that follows a processed one of the same key within the window is skipped.
pub proof fn law_rapid_repeat_coalesced(
    table: Map<CoalesceKey, u64>,
    key: CoalesceKey,
    first: u64,
    second: u64,
    window: u64,
)
    requires
        coalesce_step(table, key, first, window).1,
        window > 0,
        second < first + window,
    ensures
        !coalesce_step(coalesce_step(table, key, first, window).0, key, second, window).1,
{
}

/// With a zero window every event is processed.
pub proof fn law_zero_window_never_coalesces(table: Map<CoalesceKey, u64>, key: CoalesceKey, now: u64)
    ensures
        coalesce_step(table, key, now, 0).1,
{
}

/// An event of one key does not change the decision for another key.
pub proof fn law_keys_independent(
    table: Map<CoalesceKey, u64>,
    a: CoalesceKey,
    b: CoalesceKey,
    t1: u64,
    t2: u64,
    window: u64,
)
    requires
        a != b,
    ensures
        coalesce_step(coalesce_step(table, a, t1, window).0, b, t2, window).1 == coalesce_step(
            table,
            b,
            t2,
            window,
        ).1,
{
}

/// After the entries of a process are cleared, its next event is processed.
pub proof fn law_cleared_pid_processed(
    table: Map<CoalesceKey, u64>,
    pid: i32,
    kind: u8,
    now: u64,
    window: u64,
)
    ensures
        coalesce_step(restrict_keys(table, |k: CoalesceKey| k.0 != pid), (pid, kind), now, window).1,
{
}

/// Distinct event types of one process get distinct keys, and keys of distinct processes differ.
pub proof fn law_make_key_injective(p1: i32, e1: WindowEventType, p2: i32, e2: WindowEventType)
    ensures
        ((p1, event_discriminant(e1)) == (p2, event_discriminant(e2))) == (p1 == p2 && e1 == e2),
{
}

} // verus!
