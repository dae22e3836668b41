use pingpong::endpoint::{Endpoint, IpAddress};
use pingpong::message::Message;
use pingpong::protocol::{Action, Destination, Event, TICK_MS};
use pingpong::responder::{Responder, ResponderState, BURST_LEN};

fn loopback(port: u16) -> Endpoint {
    Endpoint { ip: IpAddress::V4(0x7f00_0001), port }
}

fn received(text: &[u8], source: Endpoint) -> Event {
    Event::Received { payload: text.to_vec(), source }
}

fn pong_to(e: Endpoint) -> Action {
    Action::Send { message: Message::Pong, to: Destination::Peer(e) }
}

fn listening(burst: u32) -> Responder {
    let mut r = Responder::with_burst(9999, burst);
    assert_eq!(r.handle(&Event::Bound), Action::Receive);
    r
}

#[test]
fn responder_binds_any_address_on_its_port() {
    let r = Responder::new(9999);
    assert_eq!(r.action(), Action::Bind(Endpoint { ip: IpAddress::V4(0), port: 9999 }));
    assert_eq!(r.burst, 1800);
    assert_eq!(BURST_LEN, 1800);
}

#[test]
fn round_trip_ping_gets_pong_from_responder() {
    let mut r = Responder::new(9999);
    r.handle(&Event::Bound);
    let prober = loopback(40000);
    let a = r.handle(&received(&Message::Ping.to_bytes(), prober));
    assert_eq!(a, pong_to(prober));
}

#[test]
fn non_probe_hello_gets_no_reply() {
    let mut r = listening(BURST_LEN);
    let a = r.handle(&received(b"hello", loopback(40000)));
    assert_eq!(a, Action::Receive);
    assert_eq!(r.state, ResponderState::Listening);
}

#[test]
fn probe_is_recognised_after_trimming() {
    for p in [&b"ping"[..], b" ping", b"ping\n", b"\t ping \r\n", "\u{a0}ping\u{3000}".as_bytes()] {
        let mut r = listening(3);
        assert_eq!(r.handle(&received(p, loopback(1))), pong_to(loopback(1)), "{:?}", p);
    }
}

#[test]
fn other_payloads_are_not_probes() {
    for p in [&b""[..], b"PING", b"pingg", b"pi ng", b"pong", b"dong", b"\xffping", b"ping\x00"] {
        let mut r = listening(3);
        assert_eq!(r.handle(&received(p, loopback(1))), Action::Receive, "{:?}", p);
    }
}

/// Drives a burst whose sends all succeed; returns the pongs seen.
fn drive(r: &mut Responder, first: Action, limit: usize) -> Vec<Action> {
    let mut pongs = Vec::new();
    let mut a = first;
    for _ in 0..limit {
        match a {
            Action::Send { .. } => {
                pongs.push(a);
                a = r.handle(&Event::Sent);
                assert_eq!(a, Action::Sleep { millis: TICK_MS });
            }
            Action::Sleep { .. } => a = r.handle(&Event::Slept),
            _ => break,
        }
    }
    assert_eq!(a, Action::Receive);
    pongs
}

#[test]
fn short_burst_sends_exactly_burst_pongs() {
    let mut r = listening(3);
    let src = loopback(5000);
    let first = r.handle(&received(b"ping", src));
    let pongs = drive(&mut r, first, 100);
    assert_eq!(pongs, vec![pong_to(src); 3]);
    assert_eq!(r.state, ResponderState::Listening);
}

#[test]
fn full_burst_sends_eighteen_hundred_pongs() {
    let mut r = Responder::new(9999);
    r.handle(&Event::Bound);
    let src = loopback(5000);
    let first = r.handle(&received(b"ping", src));
    let pongs = drive(&mut r, first, 10_000);
    assert_eq!(pongs.len(), 1800);
    assert!(pongs.iter().all(|a| *a == pong_to(src)));
}

#[test]
fn send_failure_ends_burst_but_not_responder() {
    let mut r = listening(5);
    let src = loopback(5000);
    assert_eq!(r.handle(&received(b"ping", src)), pong_to(src));
    assert_eq!(r.handle(&Event::Sent), Action::Sleep { millis: 1000 });
    assert_eq!(r.handle(&Event::Slept), pong_to(src));
    assert_eq!(r.handle(&Event::SendFailed), Action::Receive);
    assert_eq!(r.state, ResponderState::Listening);
    // a later probe starts a fresh burst
    assert_eq!(r.handle(&received(b"ping", src)), pong_to(src));
    assert_eq!(r.state, ResponderState::Replying { peer: src, more: 4 });
}

#[test]
fn empty_burst_sends_nothing() {
    let mut r = listening(0);
    assert_eq!(r.handle(&received(b"ping", loopback(1))), Action::Receive);
}

#[test]
fn second_prober_waits_for_first_burst() {
    let mut r = listening(2);
    let a = loopback(1111);
    let b = loopback(2222);
    assert_eq!(r.handle(&received(b"ping", a)), pong_to(a));
    // B's probe reported during A's burst is not read
    let before = r;
    assert_eq!(r.handle(&received(b"ping", b)), pong_to(a));
    assert_eq!(r, before);
    assert_eq!(r.handle(&Event::Sent), Action::Sleep { millis: 1000 });
    assert_eq!(r.handle(&received(b"ping", b)), Action::Sleep { millis: 1000 });
    assert_eq!(r.handle(&Event::Slept), pong_to(a));
    assert_eq!(r.handle(&Event::Sent), Action::Sleep { millis: 1000 });
    assert_eq!(r.handle(&Event::Slept), Action::Receive);
    // only now is B's probe read, and answered
    assert_eq!(r.handle(&received(b"ping", b)), pong_to(b));
}

#[test]
fn bind_failure_stops_before_listening() {
    let mut r = Responder::new(9999);
    assert_eq!(r.handle(&Event::BindFailed), Action::Stop);
    assert_eq!(r.handle(&received(b"ping", loopback(1))), Action::Stop);
    assert_eq!(r.handle(&Event::Bound), Action::Stop);
    assert_eq!(r.state, ResponderState::Stopped);
}

#[test]
fn receive_failure_is_fatal() {
    let mut r = listening(3);
    assert_eq!(r.handle(&Event::ReceiveFailed), Action::Stop);
}

#[test]
fn unexpected_events_change_nothing() {
    let mut r = listening(3);
    assert_eq!(r.handle(&Event::Sent), Action::Receive);
    assert_eq!(r.handle(&Event::Slept), Action::Receive);
    assert_eq!(r.handle(&Event::SendFailed), Action::Receive);
    assert_eq!(r.state, ResponderState::Listening);
}

#[test]
fn ipv6_source_is_answered() {
    let mut r = listening(1);
    let src = Endpoint { ip: IpAddress::V6(1), port: 7 };
    assert_eq!(r.handle(&received(b"ping", src)), pong_to(src));
}
