//! What a role asks its caller to do, and what the caller reports back.

use vstd::prelude::*;
use crate::endpoint::Endpoint;
use crate::message::Message;

verus! {

/// Pause between two `pong`s of a burst, and between two `dong`s.
pub const TICK_MS: u64 = 1000;

/// Pause of the prober after it has logged a reply.
pub const PAUSE_MS: u64 = 200;

/// Size of the buffer that a datagram is received into; the system drops
/// what does not fit.
pub const RECEIVE_BUFFER_LEN: usize = 1024;

/// Where a datagram goes.
#[derive(Clone, Copy, Debug, PartialEq, Eq, Structural)]
pub enum Destination {
    /// The remote endpoint that the role was started with.
    Remote,
    /// A given endpoint, such as the source of a probe.
    Peer(Endpoint),
}

/// The next thing that the caller of a role does.
#[derive(Clone, Copy, Debug, PartialEq, Eq, Structural)]
pub enum Action {
    /// Bind an unconnected datagram socket to this local endpoint.
    Bind(Endpoint),
    /// Block until a datagram arrives.
    Receive,
    /// Send one datagram.
    Send { message: Message, to: Destination },
    /// Block for this many milliseconds.
    Sleep { millis: u64 },
    /// End the role with the transport error that was last reported.
    Stop,
}

/// The outcome of an action, as the caller reports it.
#[derive(Debug)]
pub enum Event {
    Bound,
    BindFailed,
    /// A datagram arrived: its payload, at most one buffer long, and its source.
    Received { payload: Vec<u8>, source: Endpoint },
    ReceiveFailed,
    Sent,
    SendFailed,
    Slept,
}

/// A role seen as a state machine: the action it asks for, and its state
/// after the outcome of that action.
pub trait Machine: Sized {
    spec fn action_of(self) -> Action;

    spec fn step(self, e: Event) -> Self;
}

/// The machine after a sequence of events.
pub open spec fn run<M: Machine>(m: M, events: Seq<Event>) -> M
    decreases events.len(),
{
    if events.len() == 0 {
        m
    } else {
        run(m.step(events[0]), events.drop_first())
    }
}

/// What a single event shows to have gone out: the datagram of a send that
/// succeeded.
pub open spec fn delivered(a: Action, e: Event) -> Seq<(Message, Destination)> {
    match (a, e) {
        (Action::Send { message, to }, Event::Sent) => seq![(message, to)],
        _ => seq![],
    }
}

/// The datagrams that went out, in order, while the machine met the events.
pub open spec fn sent<M: Machine>(m: M, events: Seq<Event>) -> Seq<(Message, Destination)>
    decreases events.len(),
{
    if events.len() == 0 {
        seq![]
    } else {
        delivered(m.action_of(), events[0]) + sent(m.step(events[0]), events.drop_first())
    }
}

/// `n` ticks of a sender that succeeds: a send that goes out, then a pause.
pub open spec fn ticks(n: nat) -> Seq<Event>
    decreases n,
{
    if n == 0 {
        seq![]
    } else {
        seq![Event::Sent] + seq![Event::Slept] + ticks((n - 1) as nat)
    }
}

pub proof fn lemma_run_single<M: Machine>(m: M, e: Event)
    ensures
        run(m, seq![e]) == m.step(e),
        sent(m, seq![e]) == delivered(m.action_of(), e),
{
    let one = seq![e];
    assert(one.drop_first() =~= Seq::<Event>::empty());
    assert(run(m.step(e), one.drop_first()) == m.step(e));
    assert(sent(m.step(e), one.drop_first()) =~= Seq::<(Message, Destination)>::empty());
    assert(sent(m, one) =~= delivered(m.action_of(), e));
}

/// Running two sequences of events is running one after the other.
pub proof fn lemma_run_append<M: Machine>(m: M, a: Seq<Event>, b: Seq<Event>)
    ensures
        run(m, a + b) == run(run(m, a), b),
        sent(m, a + b) == sent(m, a) + sent(run(m, a), b),
    decreases a.len(),
{
    if a.len() == 0 {
        assert(a + b =~= b);
    } else {
        assert((a + b).drop_first() =~= a.drop_first() + b);
        lemma_run_append(m.step(a[0]), a.drop_first(), b);
        assert(delivered(m.action_of(), a[0]) + sent(m.step(a[0]), a.drop_first()) + sent(
            run(m, a),
            b,
        ) =~= delivered(m.action_of(), a[0]) + (sent(m.step(a[0]), a.drop_first()) + sent(
            run(m, a),
            b,
        )));
    }
}

/// The first of `k` ticks.
pub proof fn lemma_tick<M: Machine>(m: M, k: nat)
    requires
        k > 0,
    ensures
        run(m, ticks(k)) == run(m.step(Event::Sent).step(Event::Slept), ticks((k - 1) as nat)),
        sent(m, ticks(k)) == delivered(m.action_of(), Event::Sent) + delivered(
            m.step(Event::Sent).action_of(),
            Event::Slept,
        ) + sent(m.step(Event::Sent).step(Event::Slept), ticks((k - 1) as nat)),
{
    let m1 = m.step(Event::Sent);
    let rest = ticks((k - 1) as nat);
    lemma_run_single(m, Event::Sent);
    lemma_run_single(m1, Event::Slept);
    lemma_run_append(m, seq![Event::Sent], seq![Event::Slept]);
    lemma_run_append(m, seq![Event::Sent] + seq![Event::Slept], rest);
}

} // verus!
