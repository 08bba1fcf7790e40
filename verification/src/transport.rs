//! The push transport's fixed protocol: the endpoint path, the frames of the
//! event stream, the script served to clients, and the decisions of the two
//! per-connection loops.
//!
//! The transport is server-sent events over a long-lived response: each
//! reload is the frame `data: reload\n\n`, each keep-alive the comment frame
//! `:\n\n`, and the response carries the `text/event-stream` content type
//! with caching off. The loops themselves await in the surrounding process;
//! each turn's decision is a function here.

use vstd::prelude::*;
use vstd::string::*;
use crate::channel::send_frame;
use crate::strutil::str_eq;

verus! {

/// Seconds between keep-alive frames, defeating idle-connection timeouts in
/// intermediaries.
pub const KEEP_ALIVE_INTERVAL_SECS: u64 = 15;

/// The reserved request path that opens the push connection.
pub fn reload_endpoint() -> (s: &'static str)
    ensures
        s@ == "/__tennis"@,
{
    "/__tennis"
}

/// True when the request path names the push endpoint rather than a file to
/// serve.
pub fn is_reload_endpoint(path: &str) -> (r: bool)
    ensures
        r == (path@ == "/__tennis"@),
{
    str_eq(path, "/__tennis")
}

/// The frame that tells the client to reload.
pub fn reload_frame() -> (s: String)
    ensures
        s@ == "data: reload\n\n"@,
{
    "data: reload\n\n".to_owned()
}

/// The no-op comment frame that keeps an idle connection alive.
pub fn keep_alive_frame() -> (s: String)
    ensures
        s@ == ":\n\n"@,
{
    ":\n\n".to_owned()
}

/// Content type of the push response.
pub fn sse_content_type() -> (s: &'static str)
    ensures
        s@ == "text/event-stream"@,
{
    "text/event-stream"
}

/// Cache-control of the push response: the stream must never be cached.
pub fn sse_cache_control() -> (s: &'static str)
    ensures
        s@ == "no-cache"@,
{
    "no-cache"
}

/// Connection header of the push response: the response stays open.
pub fn sse_connection() -> (s: &'static str)
    ensures
        s@ == "keep-alive"@,
{
    "keep-alive"
}

/// The script attached to every served HTML page: it opens the push
/// connection and reloads the page on any message.
pub open spec fn injected_script_text() -> Seq<char> {
    "\n<script>\n    (() => {\n        let eventSource = new EventSource('/__tennis');\n        eventSource.onmessage = () => location.reload();\n    })();\n</script>\n"@
}

/// The live-reload client script, as `injected_script_text` fixes it.
pub fn injected_script() -> (s: &'static str)
    ensures
        s@ == injected_script_text(),
{
    "\n<script>\n    (() => {\n        let eventSource = new EventSource('/__tennis');\n        eventSource.onmessage = () => location.reload();\n    })();\n</script>\n"
}

/// Appends the live-reload script to a served HTML page.
pub fn attach_script(html: &mut String)
    ensures
        final(html)@ == old(html)@ + injected_script_text(),
{
    html.append(injected_script());
}

/// What one receive on a connection's subscription yielded.
pub enum RecvOutcome {
    /// A change signal arrived.
    Signal,
    /// The subscription fell behind and missed signals.
    Lagged,
    /// The channel is gone: watching stopped.
    Closed,
}

/// What the relay loop does with a receive outcome.
pub enum RelayAction {
    /// Send one reload frame to the client.
    SendReload,
    /// End this connection's loops.
    Stop,
}

/// The relay decision: a signal sends a reload; so does falling behind,
/// since one reload covers any number of missed signals; a closed channel
/// ends the loop.
pub open spec fn relay_decision(o: RecvOutcome) -> RelayAction {
    match o {
        RecvOutcome::Signal => RelayAction::SendReload,
        RecvOutcome::Lagged => RelayAction::SendReload,
        RecvOutcome::Closed => RelayAction::Stop,
    }
}

/// The relay decision, as `relay_decision` fixes it.
pub fn relay_action(o: &RecvOutcome) -> (a: RelayAction)
    ensures
        a == relay_decision(*o),
{
    match o {
        RecvOutcome::Signal => RelayAction::SendReload,
        RecvOutcome::Lagged => RelayAction::SendReload,
        RecvOutcome::Closed => RelayAction::Stop,
    }
}

/// The rule both per-connection loops share: they go on exactly while their
/// sends succeed. A failed send means the client is gone and ends this
/// connection's loops — an explicit decision, not a swallowed error.
pub fn continue_after_send(r: Result<(), tokio::sync::mpsc::error::SendError<String>>) -> (cont:
    bool)
    ensures
        cont == (r is Ok),
{
    match r {
        Ok(_) => true,
        Err(_) => false,
    }
}

/// One turn of a connection's relay loop: acts on the receive outcome and
/// says whether the loop goes on. It goes on only by sending a reload frame
/// whose send succeeded; it stops on a closed channel, and on a failed send —
/// which ends only this connection's loops.
pub fn relay_once(tx: &tokio::sync::mpsc::UnboundedSender<String>, o: &RecvOutcome) -> (cont:
    bool)
    ensures
        relay_decision(*o) == RelayAction::Stop ==> !cont,
        cont ==> relay_decision(*o) == RelayAction::SendReload,
{
    match relay_action(o) {
        RelayAction::SendReload => continue_after_send(send_frame(tx, reload_frame())),
        RelayAction::Stop => false,
    }
}

/// One turn of a connection's keep-alive loop: sends the comment frame and
/// says whether the loop goes on, by the same rule as the relay — the loop
/// survives exactly the sends that succeed (`continue_after_send`). False
/// means the client is gone.
pub fn keep_alive_once(tx: &tokio::sync::mpsc::UnboundedSender<String>) -> (cont: bool) {
    continue_after_send(send_frame(tx, keep_alive_frame()))
}

} // verus!
