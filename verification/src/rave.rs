//! The repeating "rave" mode: random set-color frames at a fixed interval,
//! stopped by the first transport failure.
//!
//! The loop itself performs I/O (send, sleep) and lives outside the library;
//! this module provides the loop's frame generation and its decision step.

use vstd::prelude::*;
use crate::color::Color;
use crate::command::Command;
use crate::command::spec_frame;

verus! {

/// Which transport step failed.
#[derive(Clone, Copy, Debug, PartialEq, Eq, Structural)]
pub enum TransportErrorKind {
    /// The connection could not be established (refused, unreachable, or the
    /// host did not resolve).
    Connect,
    /// The frame could not be written in full.
    Write,
    /// The written bytes could not be flushed to the connection.
    Flush,
}

/// A transport failure: the failing step, the target host and port, and the
/// underlying cause, as reported by the socket layer.
#[derive(Clone, Debug, PartialEq, Eq)]
pub struct TransportError {
    pub kind: TransportErrorKind,
    pub host: String,
    pub port: String,
    pub cause: String,
}

/// Relies on rand::random: a value drawn from the standard uniform
/// distribution. Nothing is promised of a single draw.
pub assume_specification<T>[ rand::random::<T> ]() -> (r: T)
    where
        rand::distr::StandardUniform: rand::distr::Distribution<T>,
;

/// A freshly drawn random color; each channel is drawn independently,
/// uniformly over its full 8-bit range.
pub fn random_color() -> Color {
    Color::new(rand::random::<u8>(), rand::random::<u8>(), rand::random::<u8>())
}

/// One frame of rave mode: the set-color frame for a freshly drawn random
/// color. Whatever the draw, the result is a well-formed set-color frame.
pub fn rave_frame() -> (r: Vec<u8>)
    ensures
        exists|c: Color| r@ == spec_frame(Command::Color(c)),
{
    let color = random_color();
    let buffer = Command::Color(color).to_buffer();
    proof {
        assert(buffer@ == spec_frame(Command::Color(color)));
    }
    buffer
}

/// The rave loop's state: how many frames have been sent successfully so far.
#[derive(Clone, Copy, Debug, PartialEq, Eq, Structural)]
pub struct RaveState {
    pub sent: u64,
}

/// What the rave loop does next.
#[derive(Clone, Debug, PartialEq, Eq)]
pub enum RaveAction {
    /// The last send succeeded: sleep for the configured delay, then send
    /// the next frame.
    Continue(RaveState),
    /// The last send failed: stop at once and propagate the error. No
    /// further send is attempted.
    Abort(TransportError),
}

impl RaveState {
    /// The state before any frame has been sent.
    pub fn new() -> (s: RaveState)
        ensures
            s.sent == 0,
    {
        RaveState { sent: 0 }
    }

    /// The loop's decision step: a successful send counts the frame and
    /// continues; the first failure aborts the loop with that very error.
    pub fn step(self, outcome: Result<(), TransportError>) -> (r: RaveAction)
        requires
            self.sent < u64::MAX,
        ensures
            r == (match outcome {
                Ok(_) => RaveAction::Continue(RaveState { sent: (self.sent + 1) as u64 }),
                Err(e) => RaveAction::Abort(e),
            }),
    {
        match outcome {
            Ok(_) => RaveAction::Continue(RaveState { sent: self.sent + 1 }),
            Err(e) => RaveAction::Abort(e),
        }
    }
}

} // verus!
