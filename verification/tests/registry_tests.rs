use drogue_core::model::Id;
use drogue_core::registry::{subscription_topic_allowed, CommandHandle, CommandRouter};
use tokio::sync::mpsc;

#[test]
fn only_the_command_topic_is_subscribable() {
    assert!(subscription_topic_allowed(&"command".to_string()));
    assert!(!subscription_topic_allowed(&"commands".to_string()));
    assert!(!subscription_topic_allowed(&"telemetry".to_string()));
    assert!(!subscription_topic_allowed(&"".to_string()));
}

fn id(app: &str, device: &str) -> Id {
    Id::new(app.to_string(), device.to_string())
}

#[test]
fn route_without_subscriber_is_a_miss() {
    let router = CommandRouter::new();
    // no subscriber: not delivered, and no entry appears
    assert!(!router.route(&id("a", "d"), "cmd".to_string()));
    assert!(!router.contains(&id("a", "d")));
}

#[test]
fn subscribe_then_route_delivers() {
    let mut router = CommandRouter::new();
    let (tx, mut rx) = mpsc::channel::<String>(4);
    router.subscribe(id("a", "d"), CommandHandle::new(tx));
    assert!(router.contains(&id("a", "d")));
    assert!(router.route(&id("a", "d"), "reboot".to_string()));
    assert_eq!(rx.try_recv().unwrap(), "reboot");
    // the entry stays after a delivery; cleanup belongs to the session
    assert!(router.contains(&id("a", "d")));
}

#[test]
fn later_subscription_displaces_earlier_one() {
    let mut router = CommandRouter::new();
    let (tx1, mut rx1) = mpsc::channel::<String>(4);
    let (tx2, mut rx2) = mpsc::channel::<String>(4);
    router.subscribe(id("a", "d"), CommandHandle::new(tx1));
    router.subscribe(id("a", "d"), CommandHandle::new(tx2));
    assert!(router.route(&id("a", "d"), "cmd".to_string()));
    // only the later handle receives the command
    assert_eq!(rx2.try_recv().unwrap(), "cmd");
    assert!(rx1.try_recv().is_err());
}

#[test]
fn unsubscribe_removes_the_entry() {
    let mut router = CommandRouter::new();
    let (tx, _rx) = mpsc::channel::<String>(4);
    router.subscribe(id("a", "d"), CommandHandle::new(tx));
    assert!(router.contains(&id("a", "d")));
    router.unsubscribe(&id("a", "d"));
    assert!(!router.contains(&id("a", "d")));
    assert!(!router.route(&id("a", "d"), "cmd".to_string()));
    // unsubscribing an absent identity is a no-op
    router.unsubscribe(&id("a", "d"));
    assert!(!router.contains(&id("a", "d")));
}

#[test]
fn identities_are_the_full_pair() {
    let mut router = CommandRouter::new();
    let (tx, mut rx) = mpsc::channel::<String>(4);
    router.subscribe(id("a", "d"), CommandHandle::new(tx));
    // the same device id under another application is another identity
    assert!(!router.route(&id("b", "d"), "cmd".to_string()));
    assert!(!router.route(&id("a", "e"), "cmd".to_string()));
    assert!(router.route(&id("a", "d"), "cmd".to_string()));
    assert_eq!(rx.try_recv().unwrap(), "cmd");
}

#[test]
fn routing_to_a_closed_session_fails_softly() {
    let mut router = CommandRouter::new();
    let (tx, rx) = mpsc::channel::<String>(4);
    router.subscribe(id("a", "d"), CommandHandle::new(tx));
    drop(rx);
    // the channel is gone: not delivered, entry left for its own cleanup
    assert!(!router.route(&id("a", "d"), "cmd".to_string()));
    assert!(router.contains(&id("a", "d")));
}

#[test]
fn routing_to_a_full_channel_fails_softly() {
    let mut router = CommandRouter::new();
    let (tx, mut rx) = mpsc::channel::<String>(1);
    router.subscribe(id("a", "d"), CommandHandle::new(tx));
    assert!(router.route(&id("a", "d"), "one".to_string()));
    // the single slot is taken: backpressure refuses the second command
    assert!(!router.route(&id("a", "d"), "two".to_string()));
    assert_eq!(rx.try_recv().unwrap(), "one");
}
