//! The playback state machine: it serves one request per iteration, and keeps
//! between two iterations at most one request, the one that ended the pattern
//! played last.
//!
//! An iteration is three calls. [`Playback::take_carried`] says whether a
//! request is waiting already; if none is, the caller blocks on the channel.
//! [`Playback::dispatch`] says what the request asks for. Where it asks for a
//! pattern, the caller plays it and reports with [`Playback::carry`] what the
//! executor handed back.

use vstd::prelude::*;
use crate::request::{Request, RequestKind, RequestView};

verus! {

/// What serving a request comes to.
#[derive(Debug, PartialEq, Eq)]
pub enum Dispatch {
    /// Play this pattern, then report what the executor handed back.
    Execute { pattern: String, repeat_override: i32 },
    /// Nothing to do: go on with the next iteration.
    Continue,
    /// Leave the loop.
    Stop,
}

/// The mathematical value of a [`Dispatch`].
pub enum DispatchView {
    Execute { pattern: Seq<char>, repeat_override: int },
    Continue,
    Stop,
}

impl View for Dispatch {
    type V = DispatchView;

    open spec fn view(&self) -> DispatchView {
        match *self {
            Dispatch::Execute { pattern, repeat_override } => DispatchView::Execute {
                pattern: pattern@,
                repeat_override: repeat_override as int,
            },
            Dispatch::Continue => DispatchView::Continue,
            Dispatch::Stop => DispatchView::Stop,
        }
    }
}

/// The mathematical value of a [`Playback`]: the request carried over, if
/// any, and whether the machine has reached its final state.
pub struct PlaybackView {
    pub carried: Option<RequestView>,
    pub terminated: bool,
}

/// The initial state: awaiting a command, nothing carried over.
pub open spec fn awaiting() -> PlaybackView {
    PlaybackView { carried: None, terminated: false }
}

/// Taking the carried request out: it is served instead of one from the
/// channel, and only once.
pub open spec fn taken(state: PlaybackView) -> (Option<RequestView>, PlaybackView) {
    (state.carried, PlaybackView { carried: None, terminated: state.terminated })
}

/// Serving `request`. A request to play asks for the executor; every other
/// request leaves nothing carried over, and a request to terminate ends the
/// machine. A machine that has ended stays so, whatever it is asked.
pub open spec fn dispatched(state: PlaybackView, request: RequestView) -> (
    DispatchView,
    PlaybackView,
) {
    if state.terminated {
        (DispatchView::Stop, state)
    } else {
        match request.kind {
            RequestKind::Play => (
                DispatchView::Execute {
                    pattern: request.pattern,
                    repeat_override: request.repeat_override,
                },
                awaiting(),
            ),
            RequestKind::Terminate => (
                DispatchView::Stop,
                PlaybackView { carried: None, terminated: true },
            ),
            _ => (DispatchView::Continue, awaiting()),
        }
    }
}

/// Recording what the executor handed back: an idle request stands for none.
pub open spec fn carried_over(state: PlaybackView, observed: RequestView) -> PlaybackView {
    PlaybackView {
        carried: if observed.kind is Idle {
            None
        } else {
            Some(observed)
        },
        terminated: state.terminated,
    }
}

/// One whole iteration. `received` is what the channel gives where the
/// machine has to block on it, `observed` what the executor hands back where
/// a pattern is played.
pub open spec fn iteration(state: PlaybackView, received: RequestView, observed: RequestView) -> PlaybackView {
    let (waiting, emptied) = taken(state);
    let request = match waiting {
        Some(carried) => carried,
        None => received,
    };
    let (dispatch, served) = dispatched(emptied, request);
    if dispatch is Execute {
        carried_over(served, observed)
    } else {
        served
    }
}

/// The playback state machine.
pub struct Playback {
    carried: Option<Request>,
    terminated: bool,
}

impl View for Playback {
    type V = PlaybackView;

    closed spec fn view(&self) -> PlaybackView {
        PlaybackView {
            carried: match self.carried {
                Some(request) => Some(request@),
                None => None,
            },
            terminated: self.terminated,
        }
    }
}

impl Playback {
    /// A machine in its initial state.
    pub fn new() -> (playback: Playback)
        ensures
            playback@ == awaiting(),
    {
        Playback { carried: None, terminated: false }
    }

    /// Whether the machine has reached its final state.
    pub fn is_terminated(&self) -> (b: bool)
        ensures
            b == self@.terminated,
    {
        self.terminated
    }

    /// Whether a request is carried over, so that the next iteration serves
    /// it and does not block.
    pub fn has_carried(&self) -> (b: bool)
        ensures
            b == self@.carried.is_some(),
    {
        self.carried.is_some()
    }

    /// Takes out the request carried over. `None` means: block on the channel
    /// until a request arrives.
    pub fn take_carried(&mut self) -> (waiting: Option<Request>)
        ensures
            (
                match waiting {
                    Some(request) => Some(request@),
                    None => None,
                },
                final(self)@,
            ) == taken(old(self)@),
    {
        self.carried.take()
    }

    /// Serves `request`.
    pub fn dispatch(&mut self, request: Request) -> (dispatch: Dispatch)
        ensures
            (dispatch@, final(self)@) == dispatched(old(self)@, request@),
    {
        if self.terminated {
            return Dispatch::Stop;
        }
        self.carried = None;
        match request.kind {
            RequestKind::Play => Dispatch::Execute {
                pattern: request.pattern,
                repeat_override: request.repeat_override,
            },
            RequestKind::Terminate => {
                self.terminated = true;
                Dispatch::Stop
            },
            _ => Dispatch::Continue,
        }
    }

    /// Records what the executor handed back at the end of a pattern.
    pub fn carry(&mut self, observed: Request)
        ensures
            final(self)@ == carried_over(old(self)@, observed@),
    {
        match observed.kind {
            RequestKind::Idle => {
                self.carried = None;
            },
            _ => {
                self.carried = Some(observed);
            },
        }
    }
}

} // verus!
