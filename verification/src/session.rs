//! The listening session of the monitor: it enables the cell readings of
//! the BMS, receives frames while the display runs, hands the decoded
//! readings on, and disables the cell readings when the display closes.
use vstd::prelude::*;
use crate::routing::{Message, Routed, Update, routing, route};

verus! {

/// The read timeout of every receive, in milliseconds.
pub const RECEIVE_TIMEOUT_MS: u64 = 500;

/// Where a session stands.
#[derive(PartialEq, Eq, Structural, Clone, Copy, Debug)]
pub enum Phase {
    /// Not started.
    Idle,
    /// Waiting to learn whether the display still runs.
    Polling,
    /// Waiting for the outcome of a receive.
    Receiving,
    /// Cell readings disabled; nothing more is done.
    Finished,
}

/// What became of one receive.
#[derive(Clone, Copy, Debug, PartialEq)]
pub enum Reception<V> {
    /// The receive timed out or failed.
    Nothing,
    /// A frame with an extended (29-bit) identifier arrived.
    ExtendedId,
    /// A standard frame arrived that the CAN database does not decode.
    Undecodable,
    /// A standard frame arrived and decoded to this message.
    Decoded(Message<V>),
}

/// What the surrounding program reports to the session.
#[derive(Clone, Copy, Debug, PartialEq)]
pub enum Event<V> {
    /// The session is asked to start.
    Start,
    /// Whether the display still runs.
    Running(bool),
    /// The outcome of the last receive.
    Received(Reception<V>),
}

/// What the session asks the surrounding program to do.
#[derive(Clone, Debug, PartialEq)]
pub enum Action<V> {
    /// Transmit the cell-control message, enabling (`true`) or disabling
    /// (`false`) the cell readings.
    SendCellControl(bool),
    /// Receive one frame, giving up after the timeout.
    Receive { timeout_ms: u64 },
    /// Hand this reading to the display.
    Publish(Update<V>),
    /// Report that a decoded message was ignored.
    ReportIgnored,
}

/// The listening session.
#[derive(Debug)]
pub struct Session {
    pub phase: Phase,
}

/// The actions a reception leads to.
pub open spec fn reception_actions<V>(r: Reception<V>) -> Seq<Action<V>> {
    match r {
        Reception::Decoded(msg) => match routing(msg) {
            Some(updates) => updates.map_values(|u: Update<V>| Action::Publish(u)),
            None => seq![Action::ReportIgnored],
        },
        _ => Seq::empty(),
    }
}

/// One step of the session: the next phase and the actions to perform, in
/// order. An event that the phase does not wait for changes nothing.
pub open spec fn transition<V>(phase: Phase, event: Event<V>) -> (Phase, Seq<Action<V>>) {
    match (phase, event) {
        (Phase::Idle, Event::Start) => (Phase::Polling, seq![Action::SendCellControl(true)]),
        (Phase::Polling, Event::Running(true)) => (
            Phase::Receiving,
            seq![Action::Receive { timeout_ms: RECEIVE_TIMEOUT_MS }],
        ),
        (Phase::Polling, Event::Running(false)) => (
            Phase::Finished,
            seq![Action::SendCellControl(false)],
        ),
        (Phase::Receiving, Event::Received(r)) => (Phase::Polling, reception_actions(r)),
        _ => (phase, Seq::empty()),
    }
}

impl Session {
    /// A session that has not started.
    pub fn new() -> (s: Session)
        ensures
            s.phase == Phase::Idle,
    {
        Session { phase: Phase::Idle }
    }

    /// Takes one event and returns the actions to perform, in order.
    pub fn step<V: Copy>(&mut self, event: Event<V>) -> (actions: Vec<Action<V>>)
        ensures
            (final(self).phase, actions@) == transition(old(self).phase, event),
    {
        let phase = self.phase;
        match event {
            Event::Start => {
                if phase == Phase::Idle {
                    self.phase = Phase::Polling;
                    vec![Action::SendCellControl(true)]
                } else {
                    Vec::new()
                }
            },
            Event::Running(running) => {
                if phase == Phase::Polling {
                    if running {
                        self.phase = Phase::Receiving;
                        vec![Action::Receive { timeout_ms: RECEIVE_TIMEOUT_MS }]
                    } else {
                        self.phase = Phase::Finished;
                        vec![Action::SendCellControl(false)]
                    }
                } else {
                    Vec::new()
                }
            },
            Event::Received(r) => {
                if phase == Phase::Receiving {
                    self.phase = Phase::Polling;
                    reception_to_actions(r)
                } else {
                    Vec::new()
                }
            },
        }
    }
}

fn reception_to_actions<V: Copy>(r: Reception<V>) -> (actions: Vec<Action<V>>)
    ensures
        actions@ == reception_actions(r),
{
    match r {
        Reception::Decoded(msg) => {
            match route(msg) {
                Routed::Publish(updates) => {
                    let mut actions: Vec<Action<V>> = Vec::new();
                    let mut i: usize = 0;
                    while i < updates.len()
                        invariant
                            i <= updates.len(),
                            actions@ == updates@.take(i as int).map_values(
                                |u: Update<V>| Action::Publish(u),
                            ),
                        decreases updates.len() - i,
                    {
                        actions.push(Action::Publish(updates[i]));
                        i = i + 1;
                        assert(updates@.take(i as int) == updates@.take(i - 1).push(updates@[i - 1]));
                    }
                    assert(updates@.take(i as int) == updates@);
                    actions
                },
                Routed::Ignored => vec![Action::ReportIgnored],
            }
        },
        _ => Vec::new(),
    }
}

/// The phase reached and the actions performed, in order, when the events
/// arrive one after the other.
pub open spec fn run<V>(phase: Phase, events: Seq<Event<V>>) -> (Phase, Seq<Action<V>>)
    decreases events.len(),
{
    if events.len() == 0 {
        (phase, Seq::empty())
    } else {
        let (next, first) = transition(phase, events[0]);
        let (last, rest) = run(next, events.drop_first());
        (last, first + rest)
    }
}

pub open spec fn is_cell_control<V>(a: Action<V>, enable: bool) -> bool {
    a matches Action::SendCellControl(e) && e == enable
}

proof fn reception_sends_no_control<V>(r: Reception<V>)
    ensures
        forall|i: int|
            0 <= i < reception_actions(r).len() ==> !(#[trigger] reception_actions(r)[i] is SendCellControl),
{
    match r {
        Reception::Decoded(msg) => {
            match routing(msg) {
                Some(updates) => {
                    let acts = updates.map_values(|u: Update<V>| Action::Publish(u));
                    assert forall|i: int| 0 <= i < acts.len() implies !(#[trigger] acts[i] is SendCellControl) by {
                        assert(acts[i] == Action::<V>::Publish(updates[i]));
                    }
                },
                None => {},
            }
        },
        _ => {},
    }
}

/// Over any sequence of events: the cell readings are enabled only by the
/// very first action of a session that starts idle; they are disabled only
/// by the very last action, after which the session is finished; and a
/// finished session does nothing more.
pub proof fn session_brackets_traffic<V>(phase: Phase, events: Seq<Event<V>>)
    ensures
        ({
            let (last, actions) = run(phase, events);
            &&& forall|i: int|
                0 <= i < actions.len() && is_cell_control(#[trigger] actions[i], true) ==> i == 0
                    && phase == Phase::Idle
            &&& forall|i: int|
                0 <= i < actions.len() && is_cell_control(#[trigger] actions[i], false) ==> i
                    == actions.len() - 1 && last == Phase::Finished
            &&& phase == Phase::Finished ==> last == Phase::Finished && actions.len() == 0
        }),
    decreases events.len(),
{
    if events.len() > 0 {
        let (next, first) = transition(phase, events[0]);
        let (last, rest) = run(next, events.drop_first());
        session_brackets_traffic(next, events.drop_first());
        if let Event::Received(r) = events[0] {
            reception_sends_no_control(r);
        }
        let actions = first + rest;
        assert(run(phase, events) == (last, actions));
        assert forall|i: int|
            0 <= i < actions.len() && is_cell_control(#[trigger] actions[i], true) implies i == 0
                && phase == Phase::Idle by {
            if i < first.len() {
                assert(actions[i] == first[i]);
            } else {
                assert(actions[i] == rest[i - first.len()]);
            }
        }
        assert forall|i: int|
            0 <= i < actions.len() && is_cell_control(#[trigger] actions[i], false) implies i
                == actions.len() - 1 && last == Phase::Finished by {
            if i < first.len() {
                assert(actions[i] == first[i]);
            } else {
                assert(actions[i] == rest[i - first.len()]);
            }
        }
    }
}

/// A session finishes exactly when, after it started, it learns that the
/// display no longer runs; that is the moment it disables the cell readings.
pub proof fn session_finishes_on_stop<V>(events: Seq<Event<V>>)
    ensures
        (run(Phase::Idle, events).0 == Phase::Finished) <==> exists|i: int|
            0 <= i < run(Phase::Idle, events).1.len() && is_cell_control(
                #[trigger] run(Phase::Idle, events).1[i],
                false,
            ),
{
    finishes_iff_disabled(Phase::Idle, events);
}

proof fn finishes_iff_disabled<V>(phase: Phase, events: Seq<Event<V>>)
    requires
        phase != Phase::Finished,
    ensures
        (run(phase, events).0 == Phase::Finished) <==> exists|i: int|
            0 <= i < run(phase, events).1.len() && is_cell_control(
                #[trigger] run(phase, events).1[i],
                false,
            ),
    decreases events.len(),
{
    if events.len() > 0 {
        let (next, first) = transition(phase, events[0]);
        let (last, rest) = run(next, events.drop_first());
        let actions = first + rest;
        assert(run(phase, events) == (last, actions));
        if let Event::Received(r) = events[0] {
            reception_sends_no_control(r);
        }
        session_brackets_traffic(next, events.drop_first());
        if next == Phase::Finished {
            assert(first == seq![Action::<V>::SendCellControl(false)]);
            assert(is_cell_control(run(phase, events).1[0], false));
            assert(run(phase, events).0 == Phase::Finished);
        } else {
            finishes_iff_disabled(next, events.drop_first());
            if last == Phase::Finished {
                let k = choose|k: int| 0 <= k < rest.len() && is_cell_control(#[trigger] rest[k], false);
                assert(actions[first.len() + k] == rest[k]);
                assert(is_cell_control(run(phase, events).1[first.len() + k], false));
            }
            assert forall|i: int|
                0 <= i < actions.len() && is_cell_control(#[trigger] actions[i], false) implies last
                == Phase::Finished by {
                if i < first.len() {
                    assert(actions[i] == first[i]);
                } else {
                    assert(actions[i] == rest[i - first.len()]);
                }
            }
        }
    }
}

/// `a` hands exactly the reading `u` to the display.
pub open spec fn publishes<V>(a: Action<V>, u: Update<V>) -> bool {
    a matches Action::Publish(p) && p == u
}

/// How the session answers each event: starting from idle it enables the
/// cell readings and polls; while polling, a running display asks for one
/// receive with the 500 ms timeout and a closed one disables the cell
/// readings and finishes; a reception goes back to polling, publishing
/// each reading the routing gives for a decoded message, exactly once and
/// in the routing's order, or reporting a decoded message the routing
/// ignores, and doing nothing for a timeout, an extended identifier or an
/// undecodable frame. Any other event changes nothing.
pub proof fn session_answers_events<V>(phase: Phase, event: Event<V>)
    ensures
        ({
            let (next, actions) = transition(phase, event);
            match (phase, event) {
                (Phase::Idle, Event::Start) => next == Phase::Polling && actions.len() == 1
                    && is_cell_control(actions[0], true),
                (Phase::Polling, Event::Running(true)) => next == Phase::Receiving && actions.len()
                    == 1 && (actions[0] matches Action::Receive { timeout_ms } && timeout_ms == 500),
                (Phase::Polling, Event::Running(false)) => next == Phase::Finished && actions.len()
                    == 1 && is_cell_control(actions[0], false),
                (Phase::Receiving, Event::Received(Reception::Decoded(msg))) => next == Phase::Polling
                    && match routing(msg) {
                    Some(updates) => actions.len() == updates.len() && forall|k: int|
                        0 <= k < updates.len() ==> publishes(#[trigger] actions[k], updates[k]),
                    None => actions.len() == 1 && (actions[0] is ReportIgnored),
                },
                (Phase::Receiving, Event::Received(_)) => next == Phase::Polling && actions.len() == 0,
                _ => next == phase && actions.len() == 0,
            }
        }),
{
    if let (Phase::Receiving, Event::Received(Reception::Decoded(msg))) = (phase, event) {
        if let Some(updates) = routing(msg) {
            let actions = transition(phase, event).1;
            assert forall|k: int| 0 <= k < updates.len() implies publishes(#[trigger] actions[k], updates[k]) by {
                assert(actions[k] == Action::<V>::Publish(updates[k]));
            }
        }
    }
}

} // verus!
