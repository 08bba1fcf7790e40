//! The watcher's lifecycle: owning the signal channel for one watched root,
//! starting and stopping it, and handing out subscriptions.
//!
//! The watcher never runs the filesystem loop itself — that is blocking I/O
//! and belongs to the surrounding process. It owns the publishing end of the
//! channel; `start_watching` hands the caller a second publishing handle to
//! move into the detection task, and `watch_step` is the one verified turn
//! of that task.

use vstd::prelude::*;
use crate::channel::clone_sender;
use crate::channel::send_signal;
use crate::channel::signal_channel;
use crate::channel::subscribe_signal;
use crate::detector::Detector;
use crate::detector::FsEvent;
use crate::detector::detector_emits;
use crate::detector::detector_next;

verus! {

/// How many signals each subscription can have pending before the oldest
/// are dropped for it. Losing a reload signal is tolerable: the next change
/// produces another one.
pub const CHANNEL_CAPACITY: usize = 32;

/// Watches one directory tree and feeds change signals to subscribers.
pub struct FileWatcher {
    directory: String,
    sender: Option<tokio::sync::broadcast::Sender<()>>,
}

impl FileWatcher {
    /// True when watching is live: a publisher is wired up and subscriptions
    /// can be handed out.
    pub closed spec fn enabled(&self) -> bool {
        self.sender is Some
    }

    /// The root directory this watcher stands for.
    pub closed spec fn root(&self) -> Seq<char> {
        self.directory@
    }

    /// A watcher for `directory`, not yet watching: subscribing reports
    /// unavailable until `start_watching`.
    pub fn new(directory: String) -> (w: FileWatcher)
        ensures
            !w.enabled(),
            w.root() == directory@,
    {
        FileWatcher { directory, sender: None }
    }

    /// Wires a fresh signal channel into the watcher and returns the
    /// publishing handle for the detection task.
    pub fn start_watching(&mut self) -> (publisher: tokio::sync::broadcast::Sender<()>)
        ensures
            final(self).enabled(),
            final(self).root() == old(self).root(),
    {
        let (tx, _rx) = signal_channel(CHANNEL_CAPACITY);
        let publisher = clone_sender(&tx);
        self.sender = Some(tx);
        publisher
    }

    /// Stops watching: drops the publishing end, after which subscribing
    /// reports unavailable again.
    pub fn stop_watching(&mut self)
        ensures
            !final(self).enabled(),
            final(self).root() == old(self).root(),
    {
        self.sender = None;
    }

    /// A live subscription when watching, and none when not — a caller must
    /// treat none as "live reload unavailable", never as a subscription that
    /// silently never fires.
    pub fn subscribe(&self) -> (r: Option<tokio::sync::broadcast::Receiver<()>>)
        ensures
            r is Some <==> self.enabled(),
    {
        match &self.sender {
            Some(s) => Some(subscribe_signal(s)),
            None => None,
        }
    }

    /// Publishes one change signal: how many subscribers it reached, zero
    /// when watching is off — never an error, never blocking.
    pub fn publish(&self) -> (n: usize)
        ensures
            !self.enabled() ==> n == 0,
    {
        match &self.sender {
            Some(s) => publish_signal(s),
            None => 0,
        }
    }

    /// The directory this watcher was made for.
    pub fn directory(&self) -> (d: &str)
        ensures
            d@ == self.root(),
    {
        self.directory.as_str()
    }
}

/// What a publish delivered, from the send's outcome: the receiver count on
/// success, zero on the error that stands for "no receivers" — a refused
/// send is a no-op, never a failure of the publisher.
pub fn delivered_count(r: Result<usize, tokio::sync::broadcast::error::SendError<()>>) -> (n:
    usize)
    ensures
        n == match r {
            Ok(k) => k,
            Err(_) => 0,
        },
{
    match r {
        Ok(k) => k,
        Err(_) => 0,
    }
}

/// Publishes one change signal on `publisher`: how many subscribers it
/// reached, as `delivered_count` fixes it from the send's outcome. With none
/// listening this is a no-op returning zero, never an error.
pub fn publish_signal(publisher: &tokio::sync::broadcast::Sender<()>) -> (n: usize) {
    delivered_count(send_signal(publisher))
}

/// Builds the watcher for `directory`: live and already started when
/// `wants_to_watch` is set, disabled otherwise. Alongside it, the publishing
/// handle for the caller's detection task — present exactly when watching is
/// live.
pub fn initialize_watching(directory: String, wants_to_watch: bool) -> (r: (
    FileWatcher,
    Option<tokio::sync::broadcast::Sender<()>>,
))
    ensures
        r.0.enabled() == wants_to_watch,
        r.0.root() == directory@,
        r.1 is Some <==> wants_to_watch,
{
    let mut w = FileWatcher::new(directory);
    if wants_to_watch {
        let publisher = w.start_watching();
        (w, Some(publisher))
    } else {
        (w, None)
    }
}

/// One turn of the detection task: feeds the raw event, stamped `now_ms`,
/// through the detector and publishes one change signal exactly when it
/// emits. True when a signal was published.
pub fn watch_step(
    det: &mut Detector,
    publisher: &tokio::sync::broadcast::Sender<()>,
    e: &FsEvent,
    now_ms: u64,
) -> (published: bool)
    ensures
        published == detector_emits(old(det).last_emit, *e, now_ms, old(det).window_ms),
        final(det).window_ms == old(det).window_ms,
        final(det).last_emit == detector_next(
            old(det).last_emit,
            *e,
            now_ms,
            old(det).window_ms,
        ),
{
    let emit = det.observe(e, now_ms);
    if emit {
        let _ = publish_signal(publisher);
    }
    emit
}

} // verus!
