//! The announcer: it sends `dong` to the remote endpoint once a tick, with
//! no receive side.

use vstd::prelude::*;
use crate::endpoint::{local_for, Endpoint};
use crate::message::Message;
use crate::protocol::{
    delivered, lemma_tick, run, sent, ticks, Action, Destination, Event, Machine, TICK_MS,
};

verus! {

#[derive(Clone, Copy, Debug, PartialEq, Eq, Structural)]
pub enum AnnouncerState {
    /// Not yet bound.
    Binding,
    /// About to send a `dong`.
    Announcing,
    /// A `dong` went out; one tick passes before the next.
    Resting,
    /// Ended by a transport failure.
    Stopped,
}

#[derive(Clone, Copy, Debug, PartialEq, Eq, Structural)]
pub struct Announcer {
    /// The endpoint that is bound: `0.0.0.0` with the given or an ephemeral port.
    pub local: Endpoint,
    pub state: AnnouncerState,
}

impl Announcer {
    pub open spec fn spec_action(self) -> Action {
        match self.state {
            AnnouncerState::Binding => Action::Bind(self.local),
            AnnouncerState::Announcing => Action::Send {
                message: Message::Dong,
                to: Destination::Remote,
            },
            AnnouncerState::Resting => Action::Sleep { millis: TICK_MS },
            AnnouncerState::Stopped => Action::Stop,
        }
    }

    /// The announcer after an event; every transport failure is fatal, and
    /// an event that does not answer the present action changes nothing.
    pub open spec fn next(self, e: Event) -> Announcer {
        let state = match (self.state, e) {
            (AnnouncerState::Binding, Event::Bound) => AnnouncerState::Announcing,
            (AnnouncerState::Binding, Event::BindFailed) => AnnouncerState::Stopped,
            (AnnouncerState::Announcing, Event::Sent) => AnnouncerState::Resting,
            (AnnouncerState::Announcing, Event::SendFailed) => AnnouncerState::Stopped,
            (AnnouncerState::Resting, Event::Slept) => AnnouncerState::Announcing,
            _ => self.state,
        };
        Announcer { state, ..self }
    }

    /// An announcer bound to the given local port, or to an ephemeral one.
    pub fn new(local_port: Option<u16>) -> (a: Announcer)
        ensures
            a == (Announcer { local: local_for(local_port), state: AnnouncerState::Binding }),
    {
        Announcer { local: Endpoint::local_for(local_port), state: AnnouncerState::Binding }
    }

    pub fn action(&self) -> (a: Action)
        ensures
            a == self.spec_action(),
    {
        match self.state {
            AnnouncerState::Binding => Action::Bind(self.local),
            AnnouncerState::Announcing => Action::Send {
                message: Message::Dong,
                to: Destination::Remote,
            },
            AnnouncerState::Resting => Action::Sleep { millis: TICK_MS },
            AnnouncerState::Stopped => Action::Stop,
        }
    }

    /// Takes the outcome of the last action and returns the next action.
    pub fn handle(&mut self, e: &Event) -> (a: Action)
        ensures
            *final(self) == old(self).next(*e),
            a == final(self).spec_action(),
    {
        let state = match (self.state, e) {
            (AnnouncerState::Binding, Event::Bound) => AnnouncerState::Announcing,
            (AnnouncerState::Binding, Event::BindFailed) => AnnouncerState::Stopped,
            (AnnouncerState::Announcing, Event::Sent) => AnnouncerState::Resting,
            (AnnouncerState::Announcing, Event::SendFailed) => AnnouncerState::Stopped,
            (AnnouncerState::Resting, Event::Slept) => AnnouncerState::Announcing,
            _ => self.state,
        };
        self.state = state;
        self.action()
    }
}

impl Machine for Announcer {
    open spec fn action_of(self) -> Action {
        self.spec_action()
    }

    open spec fn step(self, e: Event) -> Announcer {
        self.next(e)
    }
}

/// `n` `dong`s to the remote endpoint.
pub open spec fn dongs(n: nat) -> Seq<(Message, Destination)> {
    Seq::new(n, |i: int| (Message::Dong, Destination::Remote))
}

/// Over `n` ticks that succeed the announcer sends exactly `n` `dong`s to
/// the remote endpoint, and is then ready to send the next one.
pub proof fn lemma_announce_cadence(a: Announcer, n: nat)
    requires
        a.state == AnnouncerState::Announcing,
    ensures
        run(a, ticks(n)) == a,
        sent(a, ticks(n)) == dongs(n),
    decreases n,
{
    if n == 0 {
        assert(sent(a, ticks(n)) =~= dongs(0));
    } else {
        lemma_tick(a, n);
        lemma_announce_cadence(a, (n - 1) as nat);
        assert(sent(a, ticks(n)) =~= dongs(n));
    }
}

/// Whatever the events, every datagram that the announcer sends is a
/// `dong` to the remote endpoint.
pub proof fn lemma_only_dongs(a: Announcer, events: Seq<Event>)
    ensures
        forall|i: int|
            0 <= i < sent(a, events).len() ==> #[trigger] sent(a, events)[i] == (
            Message::Dong,
            Destination::Remote,
        ),
    decreases events.len(),
{
    if events.len() > 0 {
        let e = events[0];
        let b = a.next(e);
        lemma_only_dongs(b, events.drop_first());
        let d = delivered(a.spec_action(), e);
        if a.state is Announcing && e is Sent {
            assert(d =~= seq![(Message::Dong, Destination::Remote)]);
        } else {
            assert(d =~= Seq::<(Message, Destination)>::empty());
        }
        let all = sent(a, events);
        assert forall|i: int| 0 <= i < all.len() implies #[trigger] all[i] == (
            Message::Dong,
            Destination::Remote,
        ) by {
            if i >= d.len() {
                assert(all[i] == sent(b, events.drop_first())[i - d.len()]);
            }
        }
    }
}

/// Each `dong` is followed by a pause of one tick, and only the end of that
/// pause leads to the next `dong`.
pub proof fn lemma_dongs_paced(a: Announcer, e: Event)
    ensures
        a.state is Announcing ==> a.next(Event::Sent).spec_action() == (Action::Sleep {
            millis: TICK_MS,
        }),
        a.state is Resting && a.next(e).state is Announcing ==> e is Slept,
{
}

} // verus!
