//! The prober: it sends one `ping` to the remote endpoint, then logs every
//! datagram that arrives, with a short pause after each.

use vstd::prelude::*;
use crate::endpoint::{local_for, Endpoint};
use crate::message::Message;
use crate::protocol::{delivered, run, sent, Action, Destination, Event, Machine, PAUSE_MS};

verus! {

#[derive(Clone, Copy, Debug, PartialEq, Eq, Structural)]
pub enum ProberState {
    /// Not yet bound.
    Binding,
    /// About to send the probe.
    Probing,
    /// Waiting for a reply.
    Listening,
    /// A reply was logged; pausing before the next receive.
    Pausing,
    /// Ended by a transport failure.
    Stopped,
}

#[derive(Clone, Copy, Debug, PartialEq, Eq, Structural)]
pub struct Prober {
    /// The endpoint that is bound: `0.0.0.0` with the given or an ephemeral port.
    pub local: Endpoint,
    pub state: ProberState,
}

impl Prober {
    pub open spec fn spec_action(self) -> Action {
        match self.state {
            ProberState::Binding => Action::Bind(self.local),
            ProberState::Probing => Action::Send { message: Message::Ping, to: Destination::Remote },
            ProberState::Listening => Action::Receive,
            ProberState::Pausing => Action::Sleep { millis: PAUSE_MS },
            ProberState::Stopped => Action::Stop,
        }
    }

    /// The prober after an event; every transport failure is fatal, and an
    /// event that does not answer the present action changes nothing.
    pub open spec fn next(self, e: Event) -> Prober {
        let state = match (self.state, e) {
            (ProberState::Binding, Event::Bound) => ProberState::Probing,
            (ProberState::Binding, Event::BindFailed) => ProberState::Stopped,
            (ProberState::Probing, Event::Sent) => ProberState::Listening,
            (ProberState::Probing, Event::SendFailed) => ProberState::Stopped,
            (ProberState::Listening, Event::Received { .. }) => ProberState::Pausing,
            (ProberState::Listening, Event::ReceiveFailed) => ProberState::Stopped,
            (ProberState::Pausing, Event::Slept) => ProberState::Listening,
            _ => self.state,
        };
        Prober { state, ..self }
    }

    /// A prober bound to the given local port, or to an ephemeral one.
    pub fn new(local_port: Option<u16>) -> (p: Prober)
        ensures
            p == (Prober { local: local_for(local_port), state: ProberState::Binding }),
    {
        Prober { local: Endpoint::local_for(local_port), state: ProberState::Binding }
    }

    pub fn action(&self) -> (a: Action)
        ensures
            a == self.spec_action(),
    {
        match self.state {
            ProberState::Binding => Action::Bind(self.local),
            ProberState::Probing => Action::Send { message: Message::Ping, to: Destination::Remote },
            ProberState::Listening => Action::Receive,
            ProberState::Pausing => Action::Sleep { millis: PAUSE_MS },
            ProberState::Stopped => Action::Stop,
        }
    }

    /// Takes the outcome of the last action and returns the next action.
    pub fn handle(&mut self, e: &Event) -> (a: Action)
        ensures
            *final(self) == old(self).next(*e),
            a == final(self).spec_action(),
    {
        let state = match (self.state, e) {
            (ProberState::Binding, Event::Bound) => ProberState::Probing,
            (ProberState::Binding, Event::BindFailed) => ProberState::Stopped,
            (ProberState::Probing, Event::Sent) => ProberState::Listening,
            (ProberState::Probing, Event::SendFailed) => ProberState::Stopped,
            (ProberState::Listening, Event::Received { .. }) => ProberState::Pausing,
            (ProberState::Listening, Event::ReceiveFailed) => ProberState::Stopped,
            (ProberState::Pausing, Event::Slept) => ProberState::Listening,
            _ => self.state,
        };
        self.state = state;
        self.action()
    }
}

impl Machine for Prober {
    open spec fn action_of(self) -> Action {
        self.spec_action()
    }

    open spec fn step(self, e: Event) -> Prober {
        self.next(e)
    }
}

proof fn lemma_at_most_one_probe(p: Prober, events: Seq<Event>)
    ensures
        sent(p, events).len() <= if p.state is Binding || p.state is Probing {
            1int
        } else {
            0int
        },
        forall|i: int|
            0 <= i < sent(p, events).len() ==> #[trigger] sent(p, events)[i] == (
            Message::Ping,
            Destination::Remote,
        ),
    decreases events.len(),
{
    if events.len() > 0 {
        let e = events[0];
        let q = p.next(e);
        lemma_at_most_one_probe(q, events.drop_first());
        let d = delivered(p.spec_action(), e);
        if p.state is Probing && e is Sent {
            assert(d =~= seq![(Message::Ping, Destination::Remote)]);
        } else {
            assert(d =~= Seq::<(Message, Destination)>::empty());
        }
        let all = sent(p, events);
        assert(all == d + sent(q, events.drop_first()));
        assert forall|i: int| 0 <= i < all.len() implies #[trigger] all[i] == (
            Message::Ping,
            Destination::Remote,
        ) by {
            if i >= d.len() {
                assert(all[i] == sent(q, events.drop_first())[i - d.len()]);
            }
        }
    }
}

/// The prober sends its `ping` right after it is bound, and whatever
/// happens after, no datagram but that one `ping` ever goes out.
pub proof fn lemma_single_probe(p: Prober, events: Seq<Event>)
    requires
        p.state == ProberState::Binding,
    ensures
        p.next(Event::Bound).spec_action() == (Action::Send {
            message: Message::Ping,
            to: Destination::Remote,
        }),
        sent(p, events).len() <= 1,
        forall|i: int|
            0 <= i < sent(p, events).len() ==> #[trigger] sent(p, events)[i] == (
            Message::Ping,
            Destination::Remote,
        ),
{
    lemma_at_most_one_probe(p, events);
}

proof fn lemma_stopped_stays(p: Prober, events: Seq<Event>)
    requires
        p.state == ProberState::Stopped,
    ensures
        run(p, events) == p,
    decreases events.len(),
{
    if events.len() > 0 {
        lemma_stopped_stays(p.next(events[0]), events.drop_first());
    }
}

/// A prober whose bind fails stops, and never sends or listens.
pub proof fn lemma_bind_failure(p: Prober, events: Seq<Event>)
    requires
        p.state == ProberState::Binding,
    ensures
        p.next(Event::BindFailed).spec_action() == Action::Stop,
        run(p.next(Event::BindFailed), events).state == ProberState::Stopped,
{
    lemma_stopped_stays(p.next(Event::BindFailed), events);
}

} // verus!
