//! The per-request publish coordination: authenticate, dispatch to the
//! downstream sink, and, for an accepted publish with a positive wait window,
//! wait for one routed command until the window elapses. The decisions form a
//! state machine stepped by the surrounding transport; every outside effect is
//! an action handed back to the driver.

use vstd::prelude::*;
use crate::model::Id;

verus! {

/// What the downstream sink reports for a handed-over publish.
#[derive(Debug)]
pub enum SinkOutcome {
    Accepted,
    Rejected,
    QueueFull,
}

/// The response of one publish request, for the transport to translate into
/// its own status vocabulary. An accepted publish carries the routed command,
/// or nothing when none arrived inside the wait window.
#[derive(Debug)]
pub enum PublishResponse {
    Unauthorized,
    Rejected,
    QueueFull,
    Accepted { command: Option<String> },
}

/// Where a publish request stands.
#[derive(Debug)]
pub enum CoordinatorState {
    Idle,
    Authenticating,
    SinkDispatch,
    Waiting,
    Responding,
    Closed,
}

/// What the transport reports to the coordinator.
#[derive(Debug)]
pub enum CoordinatorEvent {
    Begin,
    AuthPassed { id: Id },
    AuthFailed,
    SinkDone { outcome: SinkOutcome },
    CommandReceived { command: String },
    TimerElapsed,
    Disconnected,
    ResponseSent,
}

/// What the coordinator asks the transport to do.
#[derive(Debug)]
pub enum CoordinatorAction {
    RequestAuthentication,
    DispatchToSink,
    Subscribe { id: Id, wait: u64 },
    Unsubscribe { id: Id },
    Respond { response: PublishResponse },
}

/// One publish request passing through the coordinator: its wait window in
/// seconds, and, once authenticated, the effective device identity.
#[derive(Debug)]
pub struct PublishCoordinator {
    pub state: CoordinatorState,
    pub wait: u64,
    pub id: Option<Id>,
}

/// The transition relation of the coordinator, as one total function: the
/// state after the event, and the actions the driver must perform, in order.
/// An event that does not belong to the current state changes nothing.
pub open spec fn spec_step(pre: PublishCoordinator, event: CoordinatorEvent) -> (
    PublishCoordinator,
    Seq<CoordinatorAction>,
) {
    match (pre.state, event) {
        (CoordinatorState::Idle, CoordinatorEvent::Begin) => (
            PublishCoordinator { state: CoordinatorState::Authenticating, ..pre },
            seq![CoordinatorAction::RequestAuthentication],
        ),
        (CoordinatorState::Authenticating, CoordinatorEvent::AuthFailed) => (
            PublishCoordinator { state: CoordinatorState::Responding, ..pre },
            seq![CoordinatorAction::Respond { response: PublishResponse::Unauthorized }],
        ),
        (CoordinatorState::Authenticating, CoordinatorEvent::AuthPassed { id }) => (
            PublishCoordinator { state: CoordinatorState::SinkDispatch, id: Some(id), ..pre },
            seq![CoordinatorAction::DispatchToSink],
        ),
        (CoordinatorState::SinkDispatch, CoordinatorEvent::SinkDone { outcome }) => match outcome {
            SinkOutcome::Rejected => (
                PublishCoordinator { state: CoordinatorState::Responding, ..pre },
                seq![CoordinatorAction::Respond { response: PublishResponse::Rejected }],
            ),
            SinkOutcome::QueueFull => (
                PublishCoordinator { state: CoordinatorState::Responding, ..pre },
                seq![CoordinatorAction::Respond { response: PublishResponse::QueueFull }],
            ),
            SinkOutcome::Accepted => {
                if pre.wait > 0 && pre.id is Some {
                    (
                        PublishCoordinator { state: CoordinatorState::Waiting, ..pre },
                        seq![
                            CoordinatorAction::Subscribe {
                                id: pre.id.unwrap(),
                                wait: pre.wait,
                            },
                        ],
                    )
                } else {
                    (
                        PublishCoordinator { state: CoordinatorState::Responding, ..pre },
                        seq![
                            CoordinatorAction::Respond {
                                response: PublishResponse::Accepted { command: None },
                            },
                        ],
                    )
                }
            },
        },
        (CoordinatorState::Waiting, CoordinatorEvent::CommandReceived { command }) => {
            if pre.id is Some {
                (
                    PublishCoordinator { state: CoordinatorState::Responding, ..pre },
                    seq![
                        CoordinatorAction::Unsubscribe { id: pre.id.unwrap() },
                        CoordinatorAction::Respond {
                            response: PublishResponse::Accepted { command: Some(command) },
                        },
                    ],
                )
            } else {
                (pre, Seq::empty())
            }
        },
        (CoordinatorState::Waiting, CoordinatorEvent::TimerElapsed) => {
            if pre.id is Some {
                (
                    PublishCoordinator { state: CoordinatorState::Responding, ..pre },
                    seq![
                        CoordinatorAction::Unsubscribe { id: pre.id.unwrap() },
                        CoordinatorAction::Respond {
                            response: PublishResponse::Accepted { command: None },
                        },
                    ],
                )
            } else {
                (pre, Seq::empty())
            }
        },
        (CoordinatorState::Waiting, CoordinatorEvent::Disconnected) => {
            if pre.id is Some {
                (
                    PublishCoordinator { state: CoordinatorState::Closed, ..pre },
                    seq![CoordinatorAction::Unsubscribe { id: pre.id.unwrap() }],
                )
            } else {
                (pre, Seq::empty())
            }
        },
        (CoordinatorState::Responding, CoordinatorEvent::ResponseSent) => (
            PublishCoordinator { state: CoordinatorState::Closed, ..pre },
            Seq::empty(),
        ),
        (CoordinatorState::Responding, CoordinatorEvent::Disconnected) => (
            PublishCoordinator { state: CoordinatorState::Closed, ..pre },
            Seq::empty(),
        ),
        _ => (pre, Seq::empty()),
    }
}

impl PublishCoordinator {
    /// A fresh coordinator for one publish with the given wait window in
    /// seconds; zero means the request never waits for a command.
    pub fn new(wait: u64) -> (r: PublishCoordinator)
        ensures
            r.state is Idle,
            r.wait == wait,
            r.id is None,
    {
        PublishCoordinator { state: CoordinatorState::Idle, wait, id: None }
    }

    /// Step the coordinator by one event, following the transition relation
    /// exactly.
    pub fn step(&mut self, event: CoordinatorEvent) -> (actions: Vec<CoordinatorAction>)
        ensures
            ({
                let r = spec_step(*old(self), event);
                &&& *final(self) == r.0
                &&& actions@ == r.1
            }),
    {
        let mut actions: Vec<CoordinatorAction> = Vec::new();
        match (&self.state, event) {
            (CoordinatorState::Idle, CoordinatorEvent::Begin) => {
                self.state = CoordinatorState::Authenticating;
                actions.push(CoordinatorAction::RequestAuthentication);
            },
            (CoordinatorState::Authenticating, CoordinatorEvent::AuthFailed) => {
                self.state = CoordinatorState::Responding;
                actions.push(CoordinatorAction::Respond {
                    response: PublishResponse::Unauthorized,
                });
            },
            (CoordinatorState::Authenticating, CoordinatorEvent::AuthPassed { id }) => {
                self.state = CoordinatorState::SinkDispatch;
                self.id = Some(id);
                actions.push(CoordinatorAction::DispatchToSink);
            },
            (CoordinatorState::SinkDispatch, CoordinatorEvent::SinkDone { outcome }) => {
                match outcome {
                    SinkOutcome::Rejected => {
                        self.state = CoordinatorState::Responding;
                        actions.push(CoordinatorAction::Respond {
                            response: PublishResponse::Rejected,
                        });
                    },
                    SinkOutcome::QueueFull => {
                        self.state = CoordinatorState::Responding;
                        actions.push(CoordinatorAction::Respond {
                            response: PublishResponse::QueueFull,
                        });
                    },
                    SinkOutcome::Accepted => {
                        let subscribe = self.wait > 0 && self.id.is_some();
                        if subscribe {
                            self.state = CoordinatorState::Waiting;
                            actions.push(CoordinatorAction::Subscribe {
                                id: self.id.as_ref().unwrap().clone(),
                                wait: self.wait,
                            });
                        } else {
                            self.state = CoordinatorState::Responding;
                            actions.push(CoordinatorAction::Respond {
                                response: PublishResponse::Accepted { command: None },
                            });
                        }
                    },
                }
            },
            (CoordinatorState::Waiting, CoordinatorEvent::CommandReceived { command }) => {
                if self.id.is_some() {
                    self.state = CoordinatorState::Responding;
                    actions.push(CoordinatorAction::Unsubscribe {
                        id: self.id.as_ref().unwrap().clone(),
                    });
                    actions.push(CoordinatorAction::Respond {
                        response: PublishResponse::Accepted { command: Some(command) },
                    });
                }
            },
            (CoordinatorState::Waiting, CoordinatorEvent::TimerElapsed) => {
                if self.id.is_some() {
                    self.state = CoordinatorState::Responding;
                    actions.push(CoordinatorAction::Unsubscribe {
                        id: self.id.as_ref().unwrap().clone(),
                    });
                    actions.push(CoordinatorAction::Respond {
                        response: PublishResponse::Accepted { command: None },
                    });
                }
            },
            (CoordinatorState::Waiting, CoordinatorEvent::Disconnected) => {
                if self.id.is_some() {
                    self.state = CoordinatorState::Closed;
                    actions.push(CoordinatorAction::Unsubscribe {
                        id: self.id.as_ref().unwrap().clone(),
                    });
                }
            },
            (CoordinatorState::Responding, CoordinatorEvent::ResponseSent) => {
                self.state = CoordinatorState::Closed;
            },
            (CoordinatorState::Responding, CoordinatorEvent::Disconnected) => {
                self.state = CoordinatorState::Closed;
            },
            (_, _) => {},
        }
        actions
    }
}

/// Settings for waiting on commands: the wait window of one publish call, in
/// seconds. The default is to not wait.
#[derive(Debug)]
pub struct CommandWait {
    pub duration: Option<u64>,
}

/// The effective wait window: an absent duration means zero, and zero means
/// the publish never suspends.
pub open spec fn spec_window(w: CommandWait) -> u64 {
    match w.duration {
        Option::None => 0u64,
        Option::Some(t) => t,
    }
}

impl Default for CommandWait {
    fn default() -> (r: CommandWait)
        ensures
            r.duration is None,
    {
        CommandWait { duration: None }
    }
}

impl CommandWait {
    /// Map a number of seconds into a command wait setting.
    pub fn from_secs(secs: Option<u64>) -> (r: CommandWait)
        ensures
            r.duration == secs,
    {
        CommandWait { duration: secs }
    }

    /// The wait window this setting asks for, in seconds.
    pub fn window(&self) -> (r: u64)
        ensures
            r == spec_window(*self),
    {
        match self.duration {
            Some(t) => t,
            None => 0,
        }
    }
}

/// The options of one command request against the command endpoint: the
/// addressed device, the command channel, and how long the device may take to
/// pick the command up.
#[derive(Debug)]
pub struct CommandOptions {
    pub application: String,
    pub device: String,
    pub command: String,
    pub timeout: Option<u64>,
}

/// A publish with wait window zero never creates a registry entry: no step of
/// a coordinator whose window is zero ever emits a subscribe action.
pub proof fn lemma_zero_wait_never_subscribes(
    pre: PublishCoordinator,
    event: CoordinatorEvent,
    i: int,
)
    requires
        pre.wait == 0,
        0 <= i < spec_step(pre, event).1.len(),
    ensures
        !(spec_step(pre, event).1[i] is Subscribe),
{
}

/// A subscription is only ever asked for by an accepted sink outcome with a
/// positive wait window, and it names the authenticated identity and that
/// window.
pub proof fn lemma_subscribe_needs_accepted_wait(
    pre: PublishCoordinator,
    event: CoordinatorEvent,
    i: int,
)
    requires
        0 <= i < spec_step(pre, event).1.len(),
        spec_step(pre, event).1[i] is Subscribe,
    ensures
        pre.wait > 0,
        pre.state is SinkDispatch,
        pre.id is Some,
        event matches CoordinatorEvent::SinkDone { outcome: SinkOutcome::Accepted },
        spec_step(pre, event).1[i] == (CoordinatorAction::Subscribe {
            id: pre.id.unwrap(),
            wait: pre.wait,
        }),
{
}

/// A publish with wait window zero responds to an accepted sink outcome at
/// once, with the accepted status and an empty body.
pub proof fn lemma_zero_wait_responds_immediately(pre: PublishCoordinator)
    requires
        pre.wait == 0,
        pre.state is SinkDispatch,
    ensures
        ({
            let r = spec_step(
                pre,
                CoordinatorEvent::SinkDone { outcome: SinkOutcome::Accepted },
            );
            &&& r.0.state is Responding
            &&& r.1 =~= seq![
                CoordinatorAction::Respond {
                    response: PublishResponse::Accepted { command: None },
                },
            ]
        }),
{
}

/// A waiting publish whose timer elapses responds with the accepted status
/// and an empty body, and first removes its registry entry; applying the
/// unsubscribe action to the router removes the identity's entry.
pub proof fn lemma_timeout_unsubscribes_then_responds(pre: PublishCoordinator)
    requires
        pre.state is Waiting,
        pre.id is Some,
    ensures
        ({
            let r = spec_step(pre, CoordinatorEvent::TimerElapsed);
            &&& r.0.state is Responding
            &&& r.1 =~= seq![
                CoordinatorAction::Unsubscribe { id: pre.id.unwrap() },
                CoordinatorAction::Respond {
                    response: PublishResponse::Accepted { command: None },
                },
            ]
        }),
{
}

} // verus!
