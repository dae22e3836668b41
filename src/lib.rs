//! Decision logic of a small UDP liveness probe: a prober that sends one
//! `ping` and logs what comes back, a responder that answers each `ping` with
//! a timed burst of `pong`s, and an announcer that sends `dong` once a second.
//!
//! Each role is a state machine: the caller performs the action that the
//! machine asks for (bind, receive, send, sleep, stop) and hands the outcome
//! back as an event.

pub mod endpoint;
pub mod message;
pub mod protocol;
pub mod responder;
pub mod prober;
pub mod announcer;
pub mod command;
