use tennis::transport::attach_script;
use tennis::transport::continue_after_send;
use tennis::transport::injected_script;
use tennis::transport::is_reload_endpoint;
use tennis::transport::keep_alive_frame;
use tennis::transport::keep_alive_once;
use tennis::transport::relay_action;
use tennis::transport::relay_once;
use tennis::transport::reload_endpoint;
use tennis::transport::reload_frame;
use tennis::transport::sse_cache_control;
use tennis::transport::sse_connection;
use tennis::transport::sse_content_type;
use tennis::transport::RecvOutcome;
use tennis::transport::RelayAction;
use tennis::transport::KEEP_ALIVE_INTERVAL_SECS;

#[test]
fn frames_are_fixed() {
    assert_eq!(reload_frame(), "data: reload\n\n");
    assert_eq!(keep_alive_frame(), ":\n\n");
}

#[test]
fn sse_headers_are_fixed() {
    assert_eq!(sse_content_type(), "text/event-stream");
    assert_eq!(sse_cache_control(), "no-cache");
    assert_eq!(sse_connection(), "keep-alive");
    assert_eq!(KEEP_ALIVE_INTERVAL_SECS, 15);
}

#[test]
fn endpoint_is_recognised() {
    assert_eq!(reload_endpoint(), "/__tennis");
    assert!(is_reload_endpoint("/__tennis"));
    assert!(!is_reload_endpoint("/__tennis/"));
    assert!(!is_reload_endpoint("/index.html"));
    assert!(!is_reload_endpoint(""));
}

#[test]
fn script_is_attached_verbatim() {
    let mut html = "<html><body>hi</body></html>".to_string();
    attach_script(&mut html);
    assert!(html.starts_with("<html><body>hi</body></html>"));
    assert!(html.ends_with(injected_script()));
    assert!(html.contains("EventSource('/__tennis')"));
    assert!(html.contains("location.reload()"));
}

#[test]
fn relay_decisions() {
    assert!(matches!(
        relay_action(&RecvOutcome::Signal),
        RelayAction::SendReload
    ));
    assert!(matches!(
        relay_action(&RecvOutcome::Lagged),
        RelayAction::SendReload
    ));
    assert!(matches!(relay_action(&RecvOutcome::Closed), RelayAction::Stop));
}

#[test]
fn loops_continue_exactly_while_sends_succeed() {
    assert!(continue_after_send(Ok(())));
    assert!(!continue_after_send(Err(tokio::sync::mpsc::error::SendError(
        "data: reload\n\n".to_string()
    ))));
}

#[test]
fn relay_sends_one_reload_frame() {
    let (tx, mut rx) = tokio::sync::mpsc::unbounded_channel::<String>();
    assert!(relay_once(&tx, &RecvOutcome::Signal));
    assert_eq!(rx.try_recv().unwrap(), "data: reload\n\n");
    assert!(rx.try_recv().is_err());
}

#[test]
fn relay_stops_on_closed_channel_without_sending() {
    let (tx, mut rx) = tokio::sync::mpsc::unbounded_channel::<String>();
    assert!(!relay_once(&tx, &RecvOutcome::Closed));
    assert!(rx.try_recv().is_err());
}

#[test]
fn relay_stops_when_client_is_gone() {
    let (tx, rx) = tokio::sync::mpsc::unbounded_channel::<String>();
    drop(rx);
    assert!(!relay_once(&tx, &RecvOutcome::Signal));
}

#[test]
fn keep_alive_sends_comment_frames_until_client_is_gone() {
    let (tx, mut rx) = tokio::sync::mpsc::unbounded_channel::<String>();
    assert!(keep_alive_once(&tx));
    assert!(keep_alive_once(&tx));
    assert_eq!(rx.try_recv().unwrap(), ":\n\n");
    assert_eq!(rx.try_recv().unwrap(), ":\n\n");
    drop(rx);
    assert!(!keep_alive_once(&tx));
}
