//! The snapshot-source task as a state machine.
//!
//! The long-lived background task initializes the external monitoring
//! interface once, announces the ready interface to the dispatcher, then
//! forwards every snapshot event from the subscription stream into the
//! bounded delivery channel. The decisions of that loop live here as a pure
//! step function from state and event to next state and action; the
//! surrounding shell performs the awaited work (initialization, the next
//! signal, the blocking send) and hands the outcome back as the next event.
//! Initialization failure, an exhausted stream, and a closed channel are all
//! fatal for the task; a supervisor then restarts it a bounded number of
//! times with exponentially growing delays, so one fault no longer silently
//! ends all telemetry.

use crate::snapshot::{InterfaceHandle, Snapshot};
use vstd::prelude::*;

verus! {

/// Why a pipeline task stopped.
#[derive(Clone, Copy, Debug, PartialEq, Eq, Structural)]
pub enum Fault {
    /// The monitoring interface failed to initialize: the task aborts and no
    /// telemetry ever flows.
    Startup,
    /// The subscription stream yielded no further events.
    Stream,
    /// The delivery channel's counterpart was dropped.
    Delivery,
}

/// Where the source task stands.
#[derive(Clone, Copy, Debug, PartialEq, Eq, Structural)]
pub enum SourceState {
    /// Waiting for the one-time interface initialization to finish.
    Initializing,
    /// The interface is live; its ready announcement is on its way to the
    /// dispatcher and must arrive before any snapshot.
    Announcing { interface: InterfaceHandle },
    /// Forwarding snapshots from the subscription stream.
    Streaming { interface: InterfaceHandle },
    /// Stopped for good.
    Terminated { fault: Fault },
}

/// What the outside world reports to the task.
#[derive(Clone, Debug, PartialEq, Eq)]
pub enum SourceEvent {
    /// Initialization finished and subscription succeeded.
    InitSucceeded { interface: InterfaceHandle },
    /// Initialization or subscription failed.
    InitFailed,
    /// The interface-ready announcement reached the channel.
    AnnouncementDelivered,
    /// The subscription stream yielded one snapshot.
    SignalReceived { snapshot: Snapshot },
    /// The forwarded snapshot reached the channel.
    SnapshotDelivered,
    /// The subscription stream ended.
    StreamExhausted,
    /// The channel's consumer side was dropped.
    DeliveryRefused,
}

/// What the task asks the shell to do next.
#[derive(Clone, Debug, PartialEq, Eq)]
pub enum SourceAction {
    /// Send the one-time interface-ready message into the delivery channel.
    Announce { interface: InterfaceHandle },
    /// Wait for the next event of the subscription stream.
    AwaitSignal,
    /// Send the snapshot into the delivery channel, suspending while the
    /// channel is full.
    Forward { snapshot: Snapshot },
    /// Stop the task; the fault is fatal and telemetry freezes.
    Halt { fault: Fault },
}

/// The state after one event.
pub open spec fn step_state(state: SourceState, event: SourceEvent) -> SourceState {
    match state {
        SourceState::Initializing => match event {
            SourceEvent::InitSucceeded { interface } => SourceState::Announcing { interface },
            SourceEvent::InitFailed => SourceState::Terminated { fault: Fault::Startup },
            _ => state,
        },
        SourceState::Announcing { interface } => match event {
            SourceEvent::AnnouncementDelivered => SourceState::Streaming { interface },
            SourceEvent::DeliveryRefused => SourceState::Terminated { fault: Fault::Delivery },
            _ => state,
        },
        SourceState::Streaming { interface } => match event {
            SourceEvent::SignalReceived { snapshot } => state,
            SourceEvent::SnapshotDelivered => state,
            SourceEvent::StreamExhausted => SourceState::Terminated { fault: Fault::Stream },
            SourceEvent::DeliveryRefused => SourceState::Terminated { fault: Fault::Delivery },
            _ => state,
        },
        SourceState::Terminated { fault } => state,
    }
}

/// The action requested after one event; `None` when the event does not
/// belong to the current state.
pub open spec fn step_action(state: SourceState, event: SourceEvent) -> Option<SourceAction> {
    match state {
        SourceState::Initializing => match event {
            SourceEvent::InitSucceeded { interface } => Some(
                SourceAction::Announce { interface },
            ),
            SourceEvent::InitFailed => Some(SourceAction::Halt { fault: Fault::Startup }),
            _ => None,
        },
        SourceState::Announcing { interface } => match event {
            SourceEvent::AnnouncementDelivered => Some(SourceAction::AwaitSignal),
            SourceEvent::DeliveryRefused => Some(
                SourceAction::Halt { fault: Fault::Delivery },
            ),
            _ => None,
        },
        SourceState::Streaming { interface } => match event {
            SourceEvent::SignalReceived { snapshot } => Some(SourceAction::Forward { snapshot }),
            SourceEvent::SnapshotDelivered => Some(SourceAction::AwaitSignal),
            SourceEvent::StreamExhausted => Some(SourceAction::Halt { fault: Fault::Stream }),
            SourceEvent::DeliveryRefused => Some(
                SourceAction::Halt { fault: Fault::Delivery },
            ),
            _ => None,
        },
        SourceState::Terminated { fault } => None,
    }
}

/// The state after a whole sequence of events, taken in order.
pub open spec fn run_states(state: SourceState, events: Seq<SourceEvent>) -> SourceState
    decreases events.len(),
{
    if events.len() == 0 {
        state
    } else {
        step_state(run_states(state, events.drop_last()), events.last())
    }
}

/// Every action the task asks for over a whole sequence of events, in order.
pub open spec fn run_actions(state: SourceState, events: Seq<SourceEvent>) -> Seq<SourceAction>
    decreases events.len(),
{
    if events.len() == 0 {
        Seq::empty()
    } else {
        let front = run_actions(state, events.drop_last());
        match step_action(run_states(state, events.drop_last()), events.last()) {
            Some(action) => front.push(action),
            None => front,
        }
    }
}

/// How many of the actions are the interface-ready announcement.
pub open spec fn announce_count(actions: Seq<SourceAction>) -> int
    decreases actions.len(),
{
    if actions.len() == 0 {
        0
    } else {
        announce_count(actions.drop_last()) + if actions.last() is Announce {
            1int
        } else {
            0int
        }
    }
}

/// Some action of the sequence is the announcement.
pub open spec fn has_announce(actions: Seq<SourceAction>) -> bool {
    exists|j: int| 0 <= j < actions.len() && (#[trigger] actions[j]) is Announce
}

proof fn lemma_counted_announce_exists(actions: Seq<SourceAction>)
    requires
        announce_count(actions) >= 1,
    ensures
        has_announce(actions),
    decreases actions.len(),
{
    if actions.last() is Announce {
        assert(actions[actions.len() - 1] is Announce);
    } else {
        lemma_counted_announce_exists(actions.drop_last());
        let j = choose|j: int|
            0 <= j < actions.drop_last().len() && (#[trigger] actions.drop_last()[j]) is Announce;
        assert(actions[j] is Announce);
    }
}

/// The announcement is tied to the task's state: before initialization
/// finishes none was made, while the task is announcing or streaming exactly
/// one was, and a terminated task made at most one.
proof fn lemma_announce_matches_state(events: Seq<SourceEvent>)
    ensures
        run_states(SourceState::Initializing, events) is Initializing ==> announce_count(
            run_actions(SourceState::Initializing, events),
        ) == 0,
        run_states(SourceState::Initializing, events) is Announcing ==> announce_count(
            run_actions(SourceState::Initializing, events),
        ) == 1,
        run_states(SourceState::Initializing, events) is Streaming ==> announce_count(
            run_actions(SourceState::Initializing, events),
        ) == 1,
        run_states(SourceState::Initializing, events) is Terminated ==> announce_count(
            run_actions(SourceState::Initializing, events),
        ) <= 1,
        forall|i: int|
            0 <= i < run_actions(SourceState::Initializing, events).len()
                && (#[trigger] run_actions(SourceState::Initializing, events)[i]) is Forward
                ==> exists|j: int|
                0 <= j < i && (#[trigger] run_actions(SourceState::Initializing, events)[j])
                    is Announce,
    decreases events.len(),
{
    if events.len() > 0 {
        lemma_announce_matches_state(events.drop_last());
        let before = run_states(SourceState::Initializing, events.drop_last());
        let front = run_actions(SourceState::Initializing, events.drop_last());
        let acts = run_actions(SourceState::Initializing, events);
        let last = events.last();
        match step_action(before, last) {
            Some(action) => {
                assert(acts == front.push(action));
                assert(acts.drop_last() =~= front);
                assert(acts.last() == action);
                assert(announce_count(acts) == announce_count(front) + if action is Announce {
                    1int
                } else {
                    0int
                });
                if action is Forward {
                    assert(before is Streaming);
                    assert(announce_count(front) == 1);
                    lemma_counted_announce_exists(front);
                }
                assert forall|i: int| 0 <= i < acts.len() && (#[trigger] acts[i]) is Forward
                    implies exists|j: int|
                    0 <= j < i && (#[trigger] acts[j]) is Announce by {
                    if i < front.len() {
                        assert(front[i] is Forward);
                        let j = choose|j: int|
                            0 <= j < i && (#[trigger] front[j]) is Announce;
                        assert(acts[j] is Announce);
                    } else {
                        assert(action is Forward);
                        let j = choose|j: int|
                            0 <= j < front.len() && (#[trigger] front[j]) is Announce;
                        assert(acts[j] is Announce);
                        assert(j < i);
                    }
                }
            },
            None => {
                assert(acts == front);
            },
        }
    }
}

/// The interface-ready announcement is made at most once over any run of the
/// task from its start, and every forwarded snapshot comes after it: the
/// dispatcher holds the interface handle before the first snapshot arrives.
pub proof fn lemma_announce_once_before_snapshots(events: Seq<SourceEvent>)
    ensures
        announce_count(run_actions(SourceState::Initializing, events)) <= 1,
        forall|i: int|
            0 <= i < run_actions(SourceState::Initializing, events).len()
                && (#[trigger] run_actions(SourceState::Initializing, events)[i]) is Forward
                ==> exists|j: int|
                0 <= j < i && (#[trigger] run_actions(SourceState::Initializing, events)[j])
                    is Announce,
{
    lemma_announce_matches_state(events);
}

/// What the supervisor of the source task decides after a fatal fault.
#[derive(Clone, Copy, Debug, PartialEq, Eq, Structural)]
pub enum SupervisorDecision {
    /// Restart the task from `Initializing` after the given delay.
    Restart { delay_ms: u64 },
    /// The retry budget is spent: leave the task down for good.
    GiveUp,
}

/// Supervises the source task: a fatal fault no longer kills telemetry
/// outright, it is retried a bounded number of times with exponentially
/// growing delays, and while the task is down the dispatcher shows a
/// disconnected status instead of freezing silently.
pub struct Supervisor {
    retries_left: u32,
    next_delay_ms: u64,
}

impl Supervisor {
    /// How many restarts are still allowed.
    pub closed spec fn retries_left(&self) -> u32 {
        self.retries_left
    }

    /// The delay the next restart would wait.
    pub closed spec fn next_delay_ms(&self) -> u64 {
        self.next_delay_ms
    }

    /// A supervisor that will restart up to `max_retries` times, waiting
    /// `initial_delay_ms` before the first restart and twice as long before
    /// each following one.
    pub fn new(max_retries: u32, initial_delay_ms: u64) -> (supervisor: Supervisor)
        ensures
            supervisor.retries_left() == max_retries,
            supervisor.next_delay_ms() == initial_delay_ms,
    {
        Supervisor { retries_left: max_retries, next_delay_ms: initial_delay_ms }
    }

    /// Decides what to do about one fatal fault: while the budget lasts,
    /// restart after the current delay and double the next one (saturating);
    /// once it is spent, give up — so a run sees at most `max_retries`
    /// restarts, each waiting no less than the one before.
    pub fn on_fault(&mut self, _fault: Fault) -> (decision: SupervisorDecision)
        ensures
            old(self).retries_left() == 0 ==> {
                &&& decision == SupervisorDecision::GiveUp
                &&& *final(self) == *old(self)
            },
            old(self).retries_left() > 0 ==> {
                &&& decision == (SupervisorDecision::Restart {
                    delay_ms: old(self).next_delay_ms(),
                })
                &&& final(self).retries_left() == old(self).retries_left() - 1
                &&& final(self).next_delay_ms() == if old(self).next_delay_ms() <= u64::MAX / 2 {
                    2 * old(self).next_delay_ms() as int
                } else {
                    u64::MAX as int
                }
            },
    {
        if self.retries_left == 0 {
            SupervisorDecision::GiveUp
        } else {
            self.retries_left = self.retries_left - 1;
            let delay_ms = self.next_delay_ms;
            self.next_delay_ms = if self.next_delay_ms <= u64::MAX / 2 {
                2 * self.next_delay_ms
            } else {
                u64::MAX
            };
            SupervisorDecision::Restart { delay_ms }
        }
    }
}

/// One step of the source task: consumes the event, returns the next state
/// and what the shell must do.
pub fn source_step(state: SourceState, event: SourceEvent) -> (next: (
    SourceState,
    Option<SourceAction>,
))
    ensures
        next.0 == step_state(state, event),
        next.1 == step_action(state, event),
{
    match state {
        SourceState::Initializing => match event {
            SourceEvent::InitSucceeded { interface } => (
                SourceState::Announcing { interface },
                Some(SourceAction::Announce { interface }),
            ),
            SourceEvent::InitFailed => (
                SourceState::Terminated { fault: Fault::Startup },
                Some(SourceAction::Halt { fault: Fault::Startup }),
            ),
            _ => (state, None),
        },
        SourceState::Announcing { interface } => match event {
            SourceEvent::AnnouncementDelivered => (
                SourceState::Streaming { interface },
                Some(SourceAction::AwaitSignal),
            ),
            SourceEvent::DeliveryRefused => (
                SourceState::Terminated { fault: Fault::Delivery },
                Some(SourceAction::Halt { fault: Fault::Delivery }),
            ),
            _ => (state, None),
        },
        SourceState::Streaming { interface: _ } => match event {
            SourceEvent::SignalReceived { snapshot } => (
                state,
                Some(SourceAction::Forward { snapshot }),
            ),
            SourceEvent::SnapshotDelivered => (state, Some(SourceAction::AwaitSignal)),
            SourceEvent::StreamExhausted => (
                SourceState::Terminated { fault: Fault::Stream },
                Some(SourceAction::Halt { fault: Fault::Stream }),
            ),
            SourceEvent::DeliveryRefused => (
                SourceState::Terminated { fault: Fault::Delivery },
                Some(SourceAction::Halt { fault: Fault::Delivery }),
            ),
            _ => (state, None),
        },
        SourceState::Terminated { fault: _ } => (state, None),
    }
}

} // verus!
