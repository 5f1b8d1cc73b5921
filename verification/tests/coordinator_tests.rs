use drogue_core::coordinator::{
    CommandWait, CoordinatorAction, CoordinatorEvent, CoordinatorState, PublishCoordinator,
    PublishResponse, SinkOutcome,
};
use drogue_core::model::Id;

fn device_id(app: &str, device: &str) -> Id {
    Id::new(app.to_string(), device.to_string())
}

fn begin_dispatched(wait: u64) -> PublishCoordinator {
    let mut c = PublishCoordinator::new(wait);
    let acts = c.step(CoordinatorEvent::Begin);
    assert!(matches!(acts[0], CoordinatorAction::RequestAuthentication));
    let acts = c.step(CoordinatorEvent::AuthPassed { id: device_id("a", "d") });
    assert_eq!(acts.len(), 1);
    assert!(matches!(acts[0], CoordinatorAction::DispatchToSink));
    c
}

#[test]
fn unauthorized_publish_never_subscribes() {
    let mut c = PublishCoordinator::new(30);
    c.step(CoordinatorEvent::Begin);
    let acts = c.step(CoordinatorEvent::AuthFailed);
    assert_eq!(acts.len(), 1);
    assert!(matches!(
        acts[0],
        CoordinatorAction::Respond { response: PublishResponse::Unauthorized }
    ));
    let acts = c.step(CoordinatorEvent::ResponseSent);
    assert!(acts.is_empty());
    assert!(matches!(c.state, CoordinatorState::Closed));
}

#[test]
fn rejected_sink_outcome_responds_at_once() {
    let mut c = begin_dispatched(30);
    let acts = c.step(CoordinatorEvent::SinkDone { outcome: SinkOutcome::Rejected });
    assert_eq!(acts.len(), 1);
    assert!(matches!(
        acts[0],
        CoordinatorAction::Respond { response: PublishResponse::Rejected }
    ));
}

#[test]
fn queue_full_sink_outcome_responds_at_once() {
    let mut c = begin_dispatched(30);
    let acts = c.step(CoordinatorEvent::SinkDone { outcome: SinkOutcome::QueueFull });
    assert_eq!(acts.len(), 1);
    assert!(matches!(
        acts[0],
        CoordinatorAction::Respond { response: PublishResponse::QueueFull }
    ));
}

#[test]
fn zero_wait_publish_never_subscribes() {
    let mut c = begin_dispatched(0);
    let acts = c.step(CoordinatorEvent::SinkDone { outcome: SinkOutcome::Accepted });
    // accepted, but with a zero window: respond at once with an empty body
    assert_eq!(acts.len(), 1);
    assert!(matches!(
        acts[0],
        CoordinatorAction::Respond { response: PublishResponse::Accepted { command: None } }
    ));
    assert!(matches!(c.state, CoordinatorState::Responding));
}

#[test]
fn accepted_publish_with_window_waits_for_a_command() {
    let mut c = begin_dispatched(30);
    let acts = c.step(CoordinatorEvent::SinkDone { outcome: SinkOutcome::Accepted });
    assert_eq!(acts.len(), 1);
    assert!(matches!(
        &acts[0],
        CoordinatorAction::Subscribe { id, wait: 30 }
            if id.app_id == "a" && id.device_id == "d"
    ));
    assert!(matches!(c.state, CoordinatorState::Waiting));

    let acts = c.step(CoordinatorEvent::CommandReceived { command: "reboot".to_string() });
    assert_eq!(acts.len(), 2);
    assert!(matches!(
        &acts[0],
        CoordinatorAction::Unsubscribe { id } if id.app_id == "a" && id.device_id == "d"
    ));
    assert!(matches!(
        &acts[1],
        CoordinatorAction::Respond { response: PublishResponse::Accepted { command: Some(cmd) } }
            if cmd == "reboot"
    ));
}

#[test]
fn elapsed_window_unsubscribes_and_responds_empty() {
    let mut c = begin_dispatched(5);
    c.step(CoordinatorEvent::SinkDone { outcome: SinkOutcome::Accepted });
    let acts = c.step(CoordinatorEvent::TimerElapsed);
    assert_eq!(acts.len(), 2);
    assert!(matches!(
        &acts[0],
        CoordinatorAction::Unsubscribe { id } if id.app_id == "a" && id.device_id == "d"
    ));
    assert!(matches!(
        &acts[1],
        CoordinatorAction::Respond { response: PublishResponse::Accepted { command: None } }
    ));
    let acts = c.step(CoordinatorEvent::ResponseSent);
    assert!(acts.is_empty());
    assert!(matches!(c.state, CoordinatorState::Closed));
}

#[test]
fn disconnect_while_waiting_unsubscribes() {
    let mut c = begin_dispatched(5);
    c.step(CoordinatorEvent::SinkDone { outcome: SinkOutcome::Accepted });
    let acts = c.step(CoordinatorEvent::Disconnected);
    assert_eq!(acts.len(), 1);
    assert!(matches!(
        &acts[0],
        CoordinatorAction::Unsubscribe { id } if id.app_id == "a" && id.device_id == "d"
    ));
    assert!(matches!(c.state, CoordinatorState::Closed));
}

#[test]
fn stray_events_change_nothing() {
    let mut c = PublishCoordinator::new(5);
    let acts = c.step(CoordinatorEvent::TimerElapsed);
    assert!(acts.is_empty());
    assert!(matches!(c.state, CoordinatorState::Idle));
    let acts = c.step(CoordinatorEvent::CommandReceived { command: "x".to_string() });
    assert!(acts.is_empty());
    assert!(matches!(c.state, CoordinatorState::Idle));
}

#[test]
fn command_wait_window() {
    assert_eq!(CommandWait::from_secs(None).window(), 0);
    assert_eq!(CommandWait::from_secs(Some(0)).window(), 0);
    assert_eq!(CommandWait::from_secs(Some(30)).window(), 30);
    assert_eq!(CommandWait::default().window(), 0);
}
