//! Playback engine of a buzzer daemon: named rhythmic patterns are played on
//! one output pin, on request, and a newer request preempts the one in
//! progress.
//!
//! The library holds the decisions and leaves the waiting to its caller. Each
//! state machine here hands out what is to be done next (drive the pin,
//! sleep, poll the request channel, block on it) and takes back what its
//! caller observed.
//!
//! - [`request`]: what the engine can be asked to do.
//! - [`command`]: from the text of a message to a request.
//! - [`config`]: the patterns, the pause, the pin, the broker.
//! - [`load`]: from a JSON text to the configuration.
//! - [`json`]: the JSON documents that the configuration is read from.
//! - [`executor`]: one pattern, played step by step.
//! - [`playback`]: one request served after the other.
//! - [`transport`]: what a lost connection leads to.
//! - [`laws`]: what holds of all of these together.
//! - [`text`]: whitespace, and names without regard to case.

pub mod command;
pub mod config;
pub mod executor;
pub mod json;
pub mod laws;
pub mod load;
pub mod playback;
pub mod request;
pub mod text;
pub mod transport;
