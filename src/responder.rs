//! The responder: it listens on a fixed port and answers each probe with a
//! burst of `pong`s to the probe's source, one per tick, before it reads the
//! next datagram.

use vstd::prelude::*;
use crate::endpoint::{any_v4, Endpoint};
use crate::message::{is_probe, is_probe_spec, is_white_space, received_text, Message};
use crate::protocol::{
    lemma_run_append, lemma_run_single, lemma_tick, run, sent, ticks, Action, Destination, Event,
    Machine, TICK_MS,
};
use vstd::utf8::*;

verus! {

/// Number of `pong`s in a full burst: one a second for thirty minutes.
pub const BURST_LEN: u32 = 1800;

#[derive(Clone, Copy, Debug, PartialEq, Eq, Structural)]
pub enum ResponderState {
    /// Not yet bound.
    Binding,
    /// Waiting for a datagram.
    Listening,
    /// About to send a `pong` to `peer`; `more` of them follow this one.
    Replying { peer: Endpoint, more: u32 },
    /// A `pong` went out to `peer`; one tick passes before the next, if
    /// `more` is not zero.
    Waiting { peer: Endpoint, more: u32 },
    /// Ended by a bind or receive failure.
    Stopped,
}

#[derive(Clone, Copy, Debug, PartialEq, Eq, Structural)]
pub struct Responder {
    /// The endpoint that is bound, `0.0.0.0:<port>`.
    pub local: Endpoint,
    /// Number of `pong`s that answer one probe.
    pub burst: u32,
    pub state: ResponderState,
}

impl Responder {
    /// What the responder asks for in its present state.
    pub open spec fn spec_action(self) -> Action {
        match self.state {
            ResponderState::Binding => Action::Bind(self.local),
            ResponderState::Listening => Action::Receive,
            ResponderState::Replying { peer, .. } => Action::Send {
                message: Message::Pong,
                to: Destination::Peer(peer),
            },
            ResponderState::Waiting { .. } => Action::Sleep { millis: TICK_MS },
            ResponderState::Stopped => Action::Stop,
        }
    }

    pub open spec fn with_state(self, state: ResponderState) -> Responder {
        Responder { state, ..self }
    }

    /// The responder after an event. An event that does not answer the
    /// present action leaves it unchanged. A failed send ends the burst but
    /// not the responder.
    pub open spec fn next(self, e: Event) -> Responder {
        match (self.state, e) {
            (ResponderState::Binding, Event::Bound) => self.with_state(ResponderState::Listening),
            (ResponderState::Binding, Event::BindFailed) => self.with_state(ResponderState::Stopped),
            (ResponderState::Listening, Event::Received { payload, source }) => {
                if is_probe_spec(payload@) && self.burst > 0 {
                    self.with_state(
                        ResponderState::Replying { peer: source, more: (self.burst - 1) as u32 },
                    )
                } else {
                    self
                }
            },
            (ResponderState::Listening, Event::ReceiveFailed) => self.with_state(
                ResponderState::Stopped,
            ),
            (ResponderState::Replying { peer, more }, Event::Sent) => self.with_state(
                ResponderState::Waiting { peer, more },
            ),
            (ResponderState::Replying { .. }, Event::SendFailed) => self.with_state(
                ResponderState::Listening,
            ),
            (ResponderState::Waiting { peer, more }, Event::Slept) => {
                if more > 0 {
                    self.with_state(ResponderState::Replying { peer, more: (more - 1) as u32 })
                } else {
                    self.with_state(ResponderState::Listening)
                }
            },
            _ => self,
        }
    }

    /// A responder for `0.0.0.0:<port>` that answers each probe with
    /// `BURST_LEN` `pong`s.
    pub fn new(port: u16) -> (r: Responder)
        ensures
            r == (Responder { local: any_v4(port), burst: BURST_LEN, state: ResponderState::Binding }),
    {
        Responder::with_burst(port, BURST_LEN)
    }

    /// A responder whose bursts have `burst` `pong`s.
    pub fn with_burst(port: u16, burst: u32) -> (r: Responder)
        ensures
            r == (Responder { local: any_v4(port), burst, state: ResponderState::Binding }),
    {
        Responder { local: Endpoint::any_v4(port), burst, state: ResponderState::Binding }
    }

    pub fn action(&self) -> (a: Action)
        ensures
            a == self.spec_action(),
    {
        match self.state {
            ResponderState::Binding => Action::Bind(self.local),
            ResponderState::Listening => Action::Receive,
            ResponderState::Replying { peer, .. } => Action::Send {
                message: Message::Pong,
                to: Destination::Peer(peer),
            },
            ResponderState::Waiting { .. } => Action::Sleep { millis: TICK_MS },
            ResponderState::Stopped => Action::Stop,
        }
    }

    /// Takes the outcome of the last action and returns the next action.
    pub fn handle(&mut self, e: &Event) -> (a: Action)
        ensures
            *final(self) == old(self).next(*e),
            a == final(self).spec_action(),
    {
        let next = match (self.state, e) {
            (ResponderState::Binding, Event::Bound) => ResponderState::Listening,
            (ResponderState::Binding, Event::BindFailed) => ResponderState::Stopped,
            (ResponderState::Listening, Event::Received { payload, source }) => {
                if is_probe(payload.as_slice()) && self.burst > 0 {
                    ResponderState::Replying { peer: *source, more: self.burst - 1 }
                } else {
                    ResponderState::Listening
                }
            },
            (ResponderState::Listening, Event::ReceiveFailed) => ResponderState::Stopped,
            (ResponderState::Replying { peer, more }, Event::Sent) => ResponderState::Waiting {
                peer,
                more,
            },
            (ResponderState::Replying { .. }, Event::SendFailed) => ResponderState::Listening,
            (ResponderState::Waiting { peer, more }, Event::Slept) => {
                if more > 0 {
                    ResponderState::Replying { peer, more: more - 1 }
                } else {
                    ResponderState::Listening
                }
            },
            _ => self.state,
        };
        self.state = next;
        self.action()
    }
}

impl Machine for Responder {
    open spec fn action_of(self) -> Action {
        self.spec_action()
    }

    open spec fn step(self, e: Event) -> Responder {
        self.next(e)
    }
}

/// `n` `pong`s to `peer`.
pub open spec fn pongs(peer: Endpoint, n: nat) -> Seq<(Message, Destination)> {
    Seq::new(n, |i: int| (Message::Pong, Destination::Peer(peer)))
}

pub open spec fn min_nat(a: nat, b: nat) -> nat {
    if a <= b {
        a
    } else {
        b
    }
}

/// A listening responder answers a datagram if and only if its payload is a
/// probe (and bursts are not empty), and then with a `pong` to the
/// datagram's source; any other payload leaves it as it was, listening,
/// with nothing sent.
pub proof fn lemma_reply_iff_probe(r: Responder, payload: Vec<u8>, source: Endpoint)
    requires
        r.state == ResponderState::Listening,
    ensures
        ({
            let a = r.next(Event::Received { payload, source }).spec_action();
            &&& (a is Send) == (is_probe_spec(payload@) && r.burst > 0)
            &&& a is Send ==> a == Action::Send {
                message: Message::Pong,
                to: Destination::Peer(source),
            }
        }),
        !is_probe_spec(payload@) ==> r.next(Event::Received { payload, source }) == r,
{
}

/// Sends and pauses that reach a responder that is not in a burst change
/// nothing.
proof fn lemma_idle_ticks(r: Responder, k: nat)
    requires
        r.state == ResponderState::Listening,
    ensures
        run(r, ticks(k)) == r,
        sent(r, ticks(k)) == Seq::<(Message, Destination)>::empty(),
    decreases k,
{
    if k > 0 {
        lemma_tick(r, k);
        lemma_idle_ticks(r, (k - 1) as nat);
        assert(sent(r, ticks(k)) =~= Seq::<(Message, Destination)>::empty());
    }
}

/// `k` successful ticks of a burst that has `more` `pong`s left after the
/// next one.
proof fn lemma_burst_ticks(r: Responder, peer: Endpoint, more: u32, k: nat)
    requires
        r.state == (ResponderState::Replying { peer, more }),
    ensures
        sent(r, ticks(k)) == pongs(peer, min_nat(k, more as nat + 1)),
        run(r, ticks(k)) == r.with_state(
            if k > more {
                ResponderState::Listening
            } else {
                ResponderState::Replying { peer, more: (more - k) as u32 }
            },
        ),
    decreases k,
{
    if k == 0 {
        assert(sent(r, ticks(k)) =~= pongs(peer, 0));
    } else {
        lemma_tick(r, k);
        let after = r.next(Event::Sent).next(Event::Slept);
        if more == 0 {
            lemma_idle_ticks(after, (k - 1) as nat);
            assert(sent(r, ticks(k)) =~= pongs(peer, 1));
        } else {
            lemma_burst_ticks(after, peer, (more - 1) as u32, (k - 1) as nat);
            assert(sent(r, ticks(k)) =~= pongs(peer, min_nat(k, more as nat + 1)));
        }
    }
}

/// The burst that answers a probe: with `n` sends that succeed, followed by
/// one that fails if `fail`, exactly `min(burst, n)` `pong`s go out, all to
/// the probe's source. The responder then listens again, unless the burst
/// is still under way.
pub proof fn lemma_burst(r: Responder, payload: Vec<u8>, source: Endpoint, n: nat, fail: bool)
    requires
        r.state == ResponderState::Listening,
        is_probe_spec(payload@),
    ensures
        ({
            let events = seq![Event::Received { payload, source }] + ticks(n) + (if fail {
                seq![Event::SendFailed]
            } else {
                Seq::<Event>::empty()
            });
            &&& sent(r, events) == pongs(source, min_nat(r.burst as nat, n))
            &&& run(r, events).state == if n >= r.burst || fail {
                ResponderState::Listening
            } else {
                ResponderState::Replying { peer: source, more: (r.burst - 1 - n) as u32 }
            }
        }),
{
    let first = seq![Event::Received { payload, source }];
    let tail = if fail {
        seq![Event::SendFailed]
    } else {
        Seq::<Event>::empty()
    };
    let r1 = r.next(Event::Received { payload, source });
    lemma_run_single(r, Event::Received { payload, source });
    lemma_run_append(r, first, ticks(n));
    lemma_run_append(r, first + ticks(n), tail);
    if r.burst == 0 {
        lemma_idle_ticks(r1, n);
    } else {
        lemma_burst_ticks(r1, source, (r.burst - 1) as u32, n);
    }
    let r2 = run(r1, ticks(n));
    if fail {
        lemma_run_single(r2, Event::SendFailed);
    } else {
        assert(run(r2, tail) == r2);
        assert(sent(r2, tail) =~= Seq::<(Message, Destination)>::empty());
    }
    assert(sent(r, first + ticks(n) + tail) =~= pongs(source, min_nat(r.burst as nat, n)));
}

/// Each `pong` is followed by a pause of one tick, and only the end of that
/// pause leads to the next `pong`.
pub proof fn lemma_pongs_paced(r: Responder, e: Event)
    ensures
        r.state is Replying ==> r.next(Event::Sent).spec_action() == (Action::Sleep {
            millis: TICK_MS,
        }),
        r.state is Waiting && r.next(e).state is Replying ==> e is Slept,
{
}

/// During a burst the responder reads no datagram: it asks for no receive,
/// and a datagram reported to it changes nothing.
pub proof fn lemma_no_read_during_burst(r: Responder, payload: Vec<u8>, source: Endpoint)
    requires
        r.state is Replying || r.state is Waiting,
    ensures
        r.spec_action() != Action::Receive,
        r.next(Event::Received { payload, source }) == r,
{
}

/// The `ping` that the prober sends is a probe.
pub proof fn lemma_ping_is_probe()
    ensures
        is_probe_spec(Message::Ping.spec_bytes()),
{
    let t = Message::Ping.spec_text();
    encode_utf8_valid_utf8(t);
    encode_utf8_decode_utf8(t);
    assert(received_text(Message::Ping.spec_bytes()) == t);
    assert(t.drop_first().len() == 3);
    assert(!is_white_space(t[0]));
    assert(!is_white_space(t.last()));
}

/// A round trip: the prober's `ping`, delivered to a listening responder,
/// makes it send a `pong` to the source of the `ping`.
pub proof fn lemma_round_trip(r: Responder, payload: Vec<u8>, source: Endpoint)
    requires
        r.state == ResponderState::Listening,
        r.burst > 0,
        payload@ == Message::Ping.spec_bytes(),
    ensures
        r.next(Event::Received { payload, source }).spec_action() == (Action::Send {
            message: Message::Pong,
            to: Destination::Peer(source),
        }),
{
    lemma_ping_is_probe();
}

/// A responder whose bind fails stops, and never listens.
pub proof fn lemma_bind_failure(r: Responder, events: Seq<Event>)
    requires
        r.state == ResponderState::Binding,
    ensures
        r.next(Event::BindFailed).spec_action() == Action::Stop,
        run(r.next(Event::BindFailed), events).state == ResponderState::Stopped,
{
    lemma_stopped_stays(r.next(Event::BindFailed), events);
}

proof fn lemma_stopped_stays(r: Responder, events: Seq<Event>)
    requires
        r.state == ResponderState::Stopped,
    ensures
        run(r, events) == r,
    decreases events.len(),
{
    if events.len() > 0 {
        lemma_stopped_stays(r.next(events[0]), events.drop_first());
    }
}

} // verus!
