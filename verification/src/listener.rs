//! The listener task state machine: one task per route, moving through
//! connect, subscribe and consume, with per-message isolation — a failed
//! dispatch never terminates the consumption loop; only a closed stream,
//! a connect failure or a subscribe failure does.

use vstd::prelude::*;

use crate::config::RouteEntry;
use crate::errors::{DispatchError, TriggerError};

verus! {

/// The phase of a listener task's lifecycle.
#[derive(Debug, Clone, Copy, PartialEq, Eq, Structural)]
pub enum ListenerPhase {
    /// Waiting for the broker connection to be established.
    Connecting,
    /// Connected; waiting for the subscription to be accepted.
    Subscribing,
    /// Subscribed; pulling messages from the stream indefinitely.
    Consuming,
    /// Terminal: the task has exited with its result.
    Closed,
}

/// An observation the surrounding runtime hands to the state machine.
#[derive(Debug)]
pub enum ListenerEvent {
    /// The broker connection was established.
    ConnectSucceeded,
    /// The broker connection could not be established.
    ConnectFailed,
    /// The subscription was accepted.
    SubscribeSucceeded,
    /// The subscription was rejected.
    SubscribeFailed,
    /// The stream yielded a message payload.
    MessageReceived(Vec<u8>),
    /// The stream yielded an explicit empty poll without closing.
    EmptyPoll,
    /// A dispatch handed out earlier came back with this outcome.
    DispatchCompleted(Result<(), DispatchError>),
    /// The stream reported closed or errored.
    StreamClosed,
}

/// What the surrounding runtime must do next.
#[derive(Debug)]
pub enum ListenerAction {
    /// Open the broker connection.
    Connect,
    /// Subscribe to the task's topic.
    Subscribe,
    /// Pull the next item from the stream.
    PollNext,
    /// Hand this payload to the dispatcher, then report the outcome back.
    Dispatch(Vec<u8>),
    /// The task is done; propagate this terminal error.
    Exit(TriggerError),
}

/// The event can be observed in the given phase.
pub open spec fn event_fits(p: ListenerPhase, e: ListenerEvent) -> bool {
    match p {
        ListenerPhase::Connecting => e is ConnectSucceeded || e is ConnectFailed,
        ListenerPhase::Subscribing => e is SubscribeSucceeded || e is SubscribeFailed,
        ListenerPhase::Consuming => e is MessageReceived || e is EmptyPoll
            || e is DispatchCompleted || e is StreamClosed,
        ListenerPhase::Closed => false,
    }
}

/// The phase after observing an event: failures of connect and subscribe
/// close the task, a closed stream closes it, and every per-message
/// observation — a delivered payload, an empty poll, any dispatch
/// outcome — keeps it consuming.
pub open spec fn spec_phase_step(p: ListenerPhase, e: ListenerEvent) -> ListenerPhase {
    match p {
        ListenerPhase::Connecting => if e is ConnectSucceeded {
            ListenerPhase::Subscribing
        } else {
            ListenerPhase::Closed
        },
        ListenerPhase::Subscribing => if e is SubscribeSucceeded {
            ListenerPhase::Consuming
        } else {
            ListenerPhase::Closed
        },
        ListenerPhase::Consuming => if e is StreamClosed {
            ListenerPhase::Closed
        } else {
            ListenerPhase::Consuming
        },
        ListenerPhase::Closed => ListenerPhase::Closed,
    }
}

/// The phase after observing a whole sequence of events, first to last.
pub open spec fn spec_run_phase(p: ListenerPhase, events: Seq<ListenerEvent>) -> ListenerPhase
    decreases events.len(),
{
    if events.len() == 0 {
        p
    } else {
        spec_run_phase(spec_phase_step(p, events[0]), events.drop_first())
    }
}

/// The event is one of the per-message observations of the consumption
/// loop: a delivered payload, an empty poll, or a dispatch outcome —
/// failed dispatches included.
pub open spec fn consuming_event(e: ListenerEvent) -> bool {
    e is MessageReceived || e is EmptyPoll || e is DispatchCompleted
}

/// Law (per-message isolation): from the consuming phase, any sequence of
/// message deliveries, empty polls and dispatch outcomes leaves the task
/// consuming. In particular no dispatch failure terminates the loop: after
/// a failed message the task still consumes, and so still attempts every
/// later message.
pub proof fn lemma_per_message_isolation(events: Seq<ListenerEvent>)
    requires
        forall|i: int| 0 <= i < events.len() ==> consuming_event(#[trigger] events[i]),
    ensures
        spec_run_phase(ListenerPhase::Consuming, events) is Consuming,
    decreases events.len(),
{
    if events.len() > 0 {
        assert(consuming_event(events[0]));
        lemma_per_message_isolation(events.drop_first());
    }
}

/// Law (every message is attempted): in a consuming run, whatever stands
/// before position `i` — failed dispatch outcomes included — the task is
/// still consuming when event `i` arrives. With `step`'s contract this
/// means a payload delivered at `i` is handed to the dispatcher: earlier
/// failures cost no later message its dispatch.
pub proof fn lemma_every_message_is_attempted(events: Seq<ListenerEvent>, i: int)
    requires
        forall|k: int| 0 <= k < events.len() ==> consuming_event(#[trigger] events[k]),
        0 <= i <= events.len(),
    ensures
        spec_run_phase(ListenerPhase::Consuming, events.take(i)) is Consuming,
{
    assert forall|k: int| 0 <= k < events.take(i).len() implies consuming_event(
        #[trigger] events.take(i)[k],
    ) by {
        assert(events.take(i)[k] == events[k]);
    }
    lemma_per_message_isolation(events.take(i));
}

/// One listener task: the route it owns, the broker address it connects
/// to, and its current phase.
#[derive(Debug)]
pub struct ListenerTask {
    /// The route the task serves.
    pub route: RouteEntry,
    /// The broker address the task connects to.
    pub address: String,
    /// Where the task stands in its lifecycle.
    pub phase: ListenerPhase,
}

impl ListenerTask {
    /// A fresh task for one route, about to connect.
    pub fn new(address: String, route: RouteEntry) -> (t: ListenerTask)
        ensures
            t.address == address,
            t.route == route,
            t.phase is Connecting,
    {
        ListenerTask { route, address, phase: ListenerPhase::Connecting }
    }

    /// The action a fresh task starts with.
    pub fn initial_action(&self) -> (a: ListenerAction)
        requires
            self.phase is Connecting,
        ensures
            a is Connect,
    {
        ListenerAction::Connect
    }

    /// Advances the state machine by one observed event and says what to
    /// do next. A dispatch outcome — success or failure alike — keeps the
    /// task consuming and polls the stream again; only connect and
    /// subscribe failures and a closed stream close the task, each
    /// propagating its own terminal error.
    pub fn step(&mut self, event: ListenerEvent) -> (a: ListenerAction)
        requires
            event_fits(old(self).phase, event),
        ensures
            final(self).route == old(self).route,
            final(self).address == old(self).address,
            final(self).phase == spec_phase_step(old(self).phase, event),
            old(self).phase is Connecting && event is ConnectSucceeded ==> a is Subscribe,
            old(self).phase is Connecting && event is ConnectFailed ==> (a matches
                ListenerAction::Exit(TriggerError::Connection { address }) && address@ == old(
                self,
            ).address@),
            old(self).phase is Subscribing && event is SubscribeSucceeded ==> a is PollNext,
            old(self).phase is Subscribing && event is SubscribeFailed ==> (a matches
                ListenerAction::Exit(TriggerError::Subscription { topic }) && topic@ == old(
                self,
            ).route.topic@),
            old(self).phase is Consuming ==> match event {
                ListenerEvent::MessageReceived(p) => a == ListenerAction::Dispatch(p),
                ListenerEvent::EmptyPoll => a is PollNext,
                ListenerEvent::DispatchCompleted(_) => a is PollNext,
                ListenerEvent::StreamClosed => a matches ListenerAction::Exit(
                    TriggerError::StreamClosed,
                ),
                _ => true,
            },
    {
        match event {
            ListenerEvent::ConnectSucceeded => {
                self.phase = ListenerPhase::Subscribing;
                ListenerAction::Subscribe
            },
            ListenerEvent::ConnectFailed => {
                self.phase = ListenerPhase::Closed;
                ListenerAction::Exit(TriggerError::Connection { address: self.address.clone() })
            },
            ListenerEvent::SubscribeSucceeded => {
                self.phase = ListenerPhase::Consuming;
                ListenerAction::PollNext
            },
            ListenerEvent::SubscribeFailed => {
                self.phase = ListenerPhase::Closed;
                ListenerAction::Exit(
                    TriggerError::Subscription { topic: self.route.topic.clone() },
                )
            },
            ListenerEvent::MessageReceived(payload) => ListenerAction::Dispatch(payload),
            ListenerEvent::EmptyPoll => ListenerAction::PollNext,
            ListenerEvent::DispatchCompleted(_) => ListenerAction::PollNext,
            ListenerEvent::StreamClosed => {
                self.phase = ListenerPhase::Closed;
                ListenerAction::Exit(TriggerError::StreamClosed)
            },
        }
    }
}

} // verus!
