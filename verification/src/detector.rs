//! The change detector: turns raw filesystem events into at most one logical
//! "changed" signal per burst, and never signals for hidden paths.
//!
//! The detector is a small state machine. The surrounding process feeds it
//! each raw event together with a monotonic timestamp in milliseconds and
//! publishes a signal exactly when `observe` says so.

use vstd::prelude::*;
use crate::paths::has_hidden_segment;
use crate::paths::path_is_hidden;

verus! {

/// The debounce window used when none is chosen, in milliseconds.
pub const DEFAULT_DEBOUNCE_MS: u64 = 200;

/// A raw filesystem event, as the watch facility reports it: the paths are
/// relative or absolute path strings, and `Rescan` means the facility lost
/// track of the tree and watching restarted.
pub enum FsEvent {
    Create(String),
    Write(String),
    Remove(String),
    Rename(String, String),
    Rescan,
    Other,
}

/// True when the raw event is relevant at all: a create, write or remove
/// whose path is not hidden; a rename with at least one non-hidden end (a
/// hidden path never triggers, whichever side of the rename it stands on);
/// or a rescan, which must always reach the subscribers once.
pub open spec fn event_relevant(e: FsEvent) -> bool {
    match e {
        FsEvent::Create(p) => !has_hidden_segment(p@),
        FsEvent::Write(p) => !has_hidden_segment(p@),
        FsEvent::Remove(p) => !has_hidden_segment(p@),
        FsEvent::Rename(a, b) => !has_hidden_segment(a@) || !has_hidden_segment(b@),
        FsEvent::Rescan => true,
        FsEvent::Other => false,
    }
}

/// True when the debouncer lets an event at `now` through: nothing was
/// emitted yet, or the last emission lies a full window back.
pub open spec fn debounce_allows(last: Option<u64>, now: u64, window: u64) -> bool {
    match last {
        None => true,
        Some(l) => now >= l + window,
    }
}

/// The debouncer's memory after an event at `now`.
pub open spec fn debounce_next(last: Option<u64>, now: u64, window: u64) -> Option<u64> {
    if debounce_allows(last, now, window) {
        Some(now)
    } else {
        last
    }
}

/// True when the detector emits a signal for `e` at `now`: the event is
/// relevant, and — unless it is a rescan, which bypasses the debouncer — a
/// full window has passed since the last emission.
pub open spec fn detector_emits(last: Option<u64>, e: FsEvent, now: u64, window: u64) -> bool {
    event_relevant(e) && (e is Rescan || debounce_allows(last, now, window))
}

/// The detector's memory after `e` at `now`: every emission, a rescan
/// included, starts a fresh window.
pub open spec fn detector_next(last: Option<u64>, e: FsEvent, now: u64, window: u64) -> Option<
    u64,
> {
    if detector_emits(last, e, now, window) {
        Some(now)
    } else {
        last
    }
}

/// True when the raw event is relevant, as `event_relevant` fixes it.
pub fn event_is_relevant(e: &FsEvent) -> (r: bool)
    ensures
        r == event_relevant(*e),
{
    match e {
        FsEvent::Create(p) => !path_is_hidden(p.as_str()),
        FsEvent::Write(p) => !path_is_hidden(p.as_str()),
        FsEvent::Remove(p) => !path_is_hidden(p.as_str()),
        FsEvent::Rename(a, b) => !path_is_hidden(a.as_str()) || !path_is_hidden(b.as_str()),
        FsEvent::Rescan => true,
        FsEvent::Other => false,
    }
}

/// The change detector: the debounce window it was made with, and when it
/// last emitted a signal. The emission schedule is fixed: an event emits as
/// soon as a full window has passed since the previous emission; later events
/// of the same burst do not push the window further out.
pub struct Detector {
    /// Width of the debounce window in milliseconds.
    pub window_ms: u64,
    /// Timestamp of the last emitted signal, if any.
    pub last_emit: Option<u64>,
}

impl Detector {
    /// A fresh detector with the given debounce window.
    pub fn new(window_ms: u64) -> (d: Detector)
        ensures
            d.window_ms == window_ms,
            d.last_emit is None,
    {
        Detector { window_ms, last_emit: None }
    }

    /// A fresh detector with the default debounce window.
    pub fn with_default_window() -> (d: Detector)
        ensures
            d.window_ms == DEFAULT_DEBOUNCE_MS,
            d.last_emit is None,
    {
        Detector::new(DEFAULT_DEBOUNCE_MS)
    }

    /// Feeds one raw event, stamped `now_ms`, through the detector; true
    /// means a change signal is to be published now.
    pub fn observe(&mut self, e: &FsEvent, now_ms: u64) -> (emit: bool)
        ensures
            emit == detector_emits(old(self).last_emit, *e, now_ms, old(self).window_ms),
            final(self).window_ms == old(self).window_ms,
            final(self).last_emit == detector_next(
                old(self).last_emit,
                *e,
                now_ms,
                old(self).window_ms,
            ),
    {
        if !event_is_relevant(e) {
            return false;
        }
        let bypass = matches!(e, FsEvent::Rescan);
        let allowed = match self.last_emit {
            None => true,
            Some(l) => now_ms >= l && now_ms - l >= self.window_ms,
        };
        if bypass || allowed {
            self.last_emit = Some(now_ms);
            true
        } else {
            false
        }
    }
}

/// An event under a hidden path never yields a signal, whatever the debounce
/// state: neither a create, write or remove of a hidden path, nor a rename
/// between two hidden paths.
pub proof fn lemma_hidden_never_signals(last: Option<u64>, e: FsEvent, now: u64, window: u64)
    requires
        match e {
            FsEvent::Create(p) => has_hidden_segment(p@),
            FsEvent::Write(p) => has_hidden_segment(p@),
            FsEvent::Remove(p) => has_hidden_segment(p@),
            FsEvent::Rename(a, b) => has_hidden_segment(a@) && has_hidden_segment(b@),
            FsEvent::Rescan => false,
            FsEvent::Other => false,
        },
    ensures
        !detector_emits(last, e, now, window),
{
}

/// Number of signals a run of write events to the file `p` at times `ts`
/// yields, starting from debounce memory `last`.
pub open spec fn write_burst_count(
    last: Option<u64>,
    p: String,
    ts: Seq<u64>,
    window: u64,
) -> nat
    decreases ts.len(),
{
    if ts.len() == 0 {
        0
    } else {
        let e = FsEvent::Write(p);
        let emitted: nat = if detector_emits(last, e, ts[0], window) {
            1
        } else {
            0
        };
        emitted + write_burst_count(
            detector_next(last, e, ts[0], window),
            p,
            ts.drop_first(),
            window,
        )
    }
}

/// Once something was emitted at or after the start of the window, the rest
/// of the burst stays silent.
proof fn lemma_write_burst_quiet(l: u64, p: String, ts: Seq<u64>, window: u64, lo: u64)
    requires
        l >= lo,
        forall|i: int| 0 <= i < ts.len() ==> lo <= #[trigger] ts[i] && ts[i] < lo + window,
    ensures
        write_burst_count(Some(l), p, ts, window) == 0,
    decreases ts.len(),
{
    if ts.len() > 0 {
        assert(ts[0] < lo + window);
        assert(!debounce_allows(Some(l), ts[0], window));
        assert(forall|i: int|
            0 <= i < ts.drop_first().len() ==> lo <= #[trigger] ts.drop_first()[i]
                && ts.drop_first()[i] < lo + window) by {
            assert(forall|i: int|
                0 <= i < ts.drop_first().len() ==> ts.drop_first()[i] == ts[i + 1]);
        }
        lemma_write_burst_quiet(l, p, ts.drop_first(), window, lo);
    }
}

/// A burst of raw write events to one file, all falling inside one debounce
/// window, yields at most one change signal.
pub proof fn lemma_write_burst_at_most_one(
    last: Option<u64>,
    p: String,
    ts: Seq<u64>,
    window: u64,
    lo: u64,
)
    requires
        forall|i: int| 0 <= i < ts.len() ==> lo <= #[trigger] ts[i] && ts[i] < lo + window,
    ensures
        write_burst_count(last, p, ts, window) <= 1,
    decreases ts.len(),
{
    if ts.len() > 0 {
        let e = FsEvent::Write(p);
        assert(forall|i: int|
            0 <= i < ts.drop_first().len() ==> ts.drop_first()[i] == ts[i + 1]);
        if detector_emits(last, e, ts[0], window) {
            lemma_write_burst_quiet(ts[0], p, ts.drop_first(), window, lo);
        } else {
            lemma_write_burst_at_most_one(last, p, ts.drop_first(), window, lo);
        }
    }
}

} // verus!
