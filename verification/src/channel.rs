//! Trusted declarations of the tokio channel primitives that carry the
//! change signal between the detector and the connections.
//!
//! Everything in this file is believed, not proved: each item names the
//! outside function it relies on. The signal payload is the unit value — a
//! `ChangeSignal` carries no data — and the push frames are plain strings.

use vstd::prelude::*;

verus! {

#[verifier::external_type_specification]
#[verifier::external_body]
#[verifier::reject_recursive_types(T)]
pub struct ExBroadcastSender<T>(tokio::sync::broadcast::Sender<T>);

#[verifier::external_type_specification]
#[verifier::external_body]
#[verifier::reject_recursive_types(T)]
pub struct ExBroadcastReceiver<T>(tokio::sync::broadcast::Receiver<T>);

#[verifier::external_type_specification]
#[verifier::external_body]
#[verifier::reject_recursive_types(T)]
pub struct ExBroadcastSendError<T>(tokio::sync::broadcast::error::SendError<T>);

#[verifier::external_type_specification]
#[verifier::external_body]
#[verifier::reject_recursive_types(T)]
pub struct ExUnboundedSender<T>(tokio::sync::mpsc::UnboundedSender<T>);

#[verifier::external_type_specification]
#[verifier::external_body]
#[verifier::reject_recursive_types(T)]
pub struct ExMpscSendError<T>(tokio::sync::mpsc::error::SendError<T>);

/// Relies on tokio::sync::broadcast::channel: a fresh signal channel that
/// buffers up to `capacity` signals per receiver. The function panics when
/// the capacity is zero or above `usize::MAX / 2`, so those are ruled out
/// here.
#[verifier::external_body]
pub(crate) fn signal_channel(capacity: usize) -> (tokio::sync::broadcast::Sender<()>, tokio::sync::broadcast::Receiver<()>)
    requires
        1 <= capacity <= usize::MAX / 2,
{
    tokio::sync::broadcast::channel(capacity)
}

/// Relies on tokio::sync::broadcast::Sender::subscribe: a fresh receiver
/// that observes only signals sent after this call.
#[verifier::external_body]
pub(crate) fn subscribe_signal(s: &tokio::sync::broadcast::Sender<()>) -> tokio::sync::broadcast::Receiver<()> {
    s.subscribe()
}

/// Relies on tokio::sync::broadcast::Sender::send: delivers the signal to
/// every receiver then live, returning how many there were; errs exactly
/// when none is. Which of the two happens depends on the channel's shared
/// state, so only the success count's bound can be promised here: a
/// successful send reached at least one receiver.
#[verifier::external_body]
pub(crate) fn send_signal(s: &tokio::sync::broadcast::Sender<()>) -> (r: Result<
    usize,
    tokio::sync::broadcast::error::SendError<()>,
>)
    ensures
        r matches Ok(n) ==> n >= 1,
{
    s.send(())
}

/// Relies on Clone for tokio::sync::broadcast::Sender: another handle onto
/// the same channel.
#[verifier::external_body]
pub(crate) fn clone_sender(s: &tokio::sync::broadcast::Sender<()>) -> tokio::sync::broadcast::Sender<()> {
    s.clone()
}

/// Relies on tokio::sync::mpsc::UnboundedSender::send: queues the frame for
/// the connection's stream; errs exactly when the receiving half — the
/// connection — is gone.
#[verifier::external_body]
pub(crate) fn send_frame(tx: &tokio::sync::mpsc::UnboundedSender<String>, frame: String) -> Result<
    (),
    tokio::sync::mpsc::error::SendError<String>,
> {
    tx.send(frame)
}

} // verus!
