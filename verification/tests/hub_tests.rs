use tennis::hub::Hub;
use tennis::hub::Poll;

#[test]
fn subscribe_after_publish_sees_nothing() {
    let mut h = Hub::new();
    let early = h.subscribe();
    h.publish();
    let late = h.subscribe();
    // the late subscription never observes the earlier signal
    assert!(matches!(h.poll(late), Poll::Empty));
    // the early one observes it
    assert!(matches!(h.poll(early), Poll::Signal));
    assert!(matches!(h.poll(early), Poll::Empty));
}

#[test]
fn subscriber_present_at_publish_observes_it() {
    let mut h = Hub::new();
    let id = h.subscribe();
    h.publish();
    h.publish();
    assert!(matches!(h.poll(id), Poll::Signal));
    assert!(matches!(h.poll(id), Poll::Signal));
    assert!(matches!(h.poll(id), Poll::Empty));
}

#[test]
fn publish_with_no_subscribers_is_a_noop() {
    let mut h = Hub::new();
    assert_eq!(h.subscriber_count(), 0);
    let delivered = h.publish();
    assert_eq!(delivered, 0);
    assert_eq!(h.published_count(), 1);
}

#[test]
fn dropped_subscription_gets_no_more_deliveries() {
    let mut h = Hub::new();
    let gone = h.subscribe();
    let stays = h.subscribe();
    h.publish();
    // the first connection's send failed: it is removed
    h.unsubscribe(gone);
    assert_eq!(h.subscriber_count(), 1);
    let delivered = h.publish();
    assert_eq!(delivered, 1);
    assert!(matches!(h.poll(gone), Poll::Closed));
    assert!(matches!(h.poll(stays), Poll::Signal));
}

#[test]
fn one_publish_reaches_every_client_once() {
    let mut h = Hub::new();
    let a = h.subscribe();
    let b = h.subscribe();
    let delivered = h.publish();
    assert_eq!(delivered, 2);
    assert!(matches!(h.poll(a), Poll::Signal));
    assert!(matches!(h.poll(b), Poll::Signal));
    assert!(matches!(h.poll(a), Poll::Empty));
    assert!(matches!(h.poll(b), Poll::Empty));
}

#[test]
fn disconnect_between_publishes_affects_nobody_else() {
    let mut h = Hub::new();
    let leaver = h.subscribe();
    let stayer = h.subscribe();
    h.publish();
    assert!(matches!(h.poll(leaver), Poll::Signal));
    h.unsubscribe(leaver);
    // the second publish raises no error and still reaches the other client
    let delivered = h.publish();
    assert_eq!(delivered, 1);
    assert!(matches!(h.poll(stayer), Poll::Signal));
    assert!(matches!(h.poll(stayer), Poll::Signal));
    assert!(matches!(h.poll(stayer), Poll::Empty));
}

#[test]
fn failed_send_drops_the_subscription_and_successful_send_keeps_it() {
    let mut h = Hub::new();
    let a = h.subscribe();
    let b = h.subscribe();
    h.publish();
    assert!(h.handle_send_result(a, true));
    assert_eq!(h.subscriber_count(), 2);
    // a's next send fails: its subscription goes, b's stays
    assert!(!h.handle_send_result(a, false));
    assert_eq!(h.subscriber_count(), 1);
    assert!(matches!(h.poll(a), Poll::Closed));
    let delivered = h.publish();
    assert_eq!(delivered, 1);
    assert!(matches!(h.poll(b), Poll::Signal));
}

#[test]
fn fresh_ids_are_never_reused() {
    let mut h = Hub::new();
    let a = h.subscribe();
    h.unsubscribe(a);
    let b = h.subscribe();
    assert_ne!(a, b);
    assert!(matches!(h.poll(a), Poll::Closed));
    assert!(matches!(h.poll(b), Poll::Empty));
}
