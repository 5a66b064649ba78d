//! The request model: what the playback engine is asked to do next.

use vstd::prelude::*;

verus! {

/// The four things a request can ask for.
#[derive(Clone, Copy, Debug, PartialEq, Eq, Structural)]
pub enum RequestKind {
    /// Nothing: the default, which stands for "no request".
    Idle,
    /// Play the named pattern.
    Play,
    /// Silence the buzzer.
    Cancel,
    /// Leave the playback loop.
    Terminate,
}

/// A request as it travels from the transport thread to the playback thread.
///
/// A negative `repeat_override` means "use the repeat count that the pattern
/// is configured with"; any other value replaces that count.
#[derive(Debug, PartialEq, Eq)]
pub struct Request {
    pub kind: RequestKind,
    pub pattern: String,
    pub repeat_override: i32,
}

/// The mathematical value of a [`Request`].
pub struct RequestView {
    pub kind: RequestKind,
    pub pattern: Seq<char>,
    pub repeat_override: int,
}

impl View for Request {
    type V = RequestView;

    open spec fn view(&self) -> RequestView {
        RequestView {
            kind: self.kind,
            pattern: self.pattern@,
            repeat_override: self.repeat_override as int,
        }
    }
}

impl Clone for Request {
    /// A copy of this request: requests are values, handed on by copying.
    fn clone(&self) -> (copy: Request)
        ensures
            copy@ == self@,
    {
        Request {
            kind: self.kind,
            pattern: self.pattern.clone(),
            repeat_override: self.repeat_override,
        }
    }
}

/// The override that stands for "none given".
pub const NO_OVERRIDE: i32 = -1;

/// The value of the idle request: no pattern, no override.
pub open spec fn idle_request() -> RequestView {
    RequestView { kind: RequestKind::Idle, pattern: Seq::<char>::empty(), repeat_override: -1 }
}

/// The value of the request that ends playback.
pub open spec fn terminate_request() -> RequestView {
    RequestView { kind: RequestKind::Terminate, pattern: Seq::<char>::empty(), repeat_override: -1 }
}

impl Request {
    /// The idle request.
    pub fn idle() -> (r: Request)
        ensures
            r@ == idle_request(),
    {
        Request { kind: RequestKind::Idle, pattern: String::new(), repeat_override: NO_OVERRIDE }
    }

    /// The request that the shutdown path sends.
    pub fn terminate() -> (r: Request)
        ensures
            r@ == terminate_request(),
    {
        Request { kind: RequestKind::Terminate, pattern: String::new(), repeat_override: NO_OVERRIDE }
    }
}

} // verus!
