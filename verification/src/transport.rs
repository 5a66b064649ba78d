//! The transport side: what the thread that consumes messages decides when
//! the consumer delivers no message, and after an attempt to reconnect.
//!
//! A message is translated and its request forwarded (see
//! [`crate::command::translate`]). When the loop is left, the request of
//! [`crate::request::Request::terminate`] goes to the playback thread.

use vstd::prelude::*;

verus! {

/// The time to wait before each attempt to reconnect, in milliseconds.
pub const RECONNECT_INTERVAL_MS: u64 = 3000;

/// What follows a delivery that holds no message.
#[derive(Clone, Copy, Debug, PartialEq, Eq, Structural)]
pub enum Gap {
    /// The client is still connected, so consuming was stopped on purpose:
    /// leave the message loop.
    Stop,
    /// The connection is lost: wait for `wait_ms` milliseconds, then try to
    /// reconnect.
    Reconnect { wait_ms: u64 },
}

/// What follows an attempt to reconnect.
#[derive(Clone, Copy, Debug, PartialEq, Eq, Structural)]
pub enum Attempt {
    /// The connection is back: go on consuming.
    Resume,
    /// Wait for `wait_ms` milliseconds and try again. The attempts are not
    /// counted: there is no last one.
    Retry { wait_ms: u64 },
}

/// Decides what a delivery without a message means.
pub fn on_gap(connected: bool) -> (gap: Gap)
    ensures
        gap == if connected {
            Gap::Stop
        } else {
            (Gap::Reconnect { wait_ms: RECONNECT_INTERVAL_MS })
        },
{
    if connected {
        Gap::Stop
    } else {
        Gap::Reconnect { wait_ms: RECONNECT_INTERVAL_MS }
    }
}

/// Decides what follows an attempt to reconnect.
pub fn after_attempt(restored: bool) -> (attempt: Attempt)
    ensures
        attempt == if restored {
            Attempt::Resume
        } else {
            (Attempt::Retry { wait_ms: RECONNECT_INTERVAL_MS })
        },
{
    if restored {
        Attempt::Resume
    } else {
        Attempt::Retry { wait_ms: RECONNECT_INTERVAL_MS }
    }
}

} // verus!
