//! The pattern executor: it plays one pattern, step by step, and gives way to
//! the first request that arrives meanwhile.
//!
//! The executor does not drive the pin, sleep or poll. It hands out one
//! [`Directive`] at a time; its caller performs the directive, polls the
//! request channel once, and comes back with what the poll gave.

use vstd::prelude::*;
use vstd::arithmetic::div_mod::lemma_fundamental_div_mod_converse;
use crate::config::{lookup, EngineConfig, EngineConfigView};
use crate::request::{idle_request, Request, RequestView};

verus! {

/// What the caller of an [`Executor`] has to do next.
#[derive(Debug, PartialEq, Eq)]
pub enum Directive {
    /// One phase of the rhythm: set the pin as `active` says, suspend for
    /// `millis` milliseconds, then poll.
    Sound { active: bool, millis: u64 },
    /// The end of a cycle: force the pin inactive, suspend for the pause if
    /// one is due, then poll.
    Rest { pause: Option<u64> },
    /// The end of the pattern: force the pin inactive and hand `request` on.
    Finish { request: Request },
}

/// The mathematical value of a [`Directive`].
pub enum DirectiveView {
    Sound { active: bool, millis: u64 },
    Rest { pause: Option<u64> },
    Finish { request: RequestView },
}

impl View for Directive {
    type V = DirectiveView;

    open spec fn view(&self) -> DirectiveView {
        match *self {
            Directive::Sound { active, millis } => DirectiveView::Sound { active, millis },
            Directive::Rest { pause } => DirectiveView::Rest { pause },
            Directive::Finish { request } => DirectiveView::Finish { request: request@ },
        }
    }
}

impl DirectiveView {
    /// Whether the pin is active once the directive is carried out.
    pub open spec fn pin_active(self) -> bool {
        self matches DirectiveView::Sound { active, .. } && active
    }

    /// For how long the directive suspends its caller: once, or not at all.
    pub open spec fn suspension(self) -> Option<u64> {
        match self {
            DirectiveView::Sound { millis, .. } => Some(millis),
            DirectiveView::Rest { pause } => pause,
            DirectiveView::Finish { .. } => None,
        }
    }

    /// Whether the request channel is polled once the directive is carried out.
    pub open spec fn polls(self) -> bool {
        !(self is Finish)
    }
}

/// What it takes to play a pattern: its rhythm, the pause between two cycles,
/// and the number of repetitions.
pub struct Plan {
    pub rhythm: Seq<u64>,
    pub pause: u64,
    pub repetitions: nat,
}

impl Plan {
    /// The directives of one cycle: one per phase of the rhythm, and the rest
    /// that ends the cycle.
    pub open spec fn period(self) -> int {
        (self.rhythm.len() + 1) as int
    }

    /// The number of cycles played: one more than the repetitions.
    pub open spec fn cycles(self) -> int {
        (self.repetitions + 1) as int
    }

    /// The number of directives of an undisturbed run, the final one aside.
    pub open spec fn length(self) -> nat {
        (self.cycles() * self.period()) as nat
    }

    /// The `k`-th directive of cycle `cycle`. The phases alternate, beginning
    /// with an active one; a pause follows every cycle but the last.
    pub open spec fn entry(self, cycle: int, k: int) -> DirectiveView {
        if k < self.rhythm.len() {
            DirectiveView::Sound { active: k % 2 == 0, millis: self.rhythm[k] }
        } else {
            DirectiveView::Rest {
                pause: if cycle == self.repetitions {
                    None
                } else {
                    Some(self.pause)
                },
            }
        }
    }

    /// The directives of an undisturbed run, in order, the final one aside.
    pub open spec fn script(self) -> Seq<DirectiveView> {
        Seq::new(self.length(), |n: int| self.entry(n / self.period(), n % self.period()))
    }
}

/// The number of repetitions in force: an override that is not negative
/// replaces the configured count, whatever the two values are.
pub open spec fn effective_repetitions(configured: u64, repeat_override: int) -> nat {
    if repeat_override >= 0 {
        repeat_override as nat
    } else {
        configured as nat
    }
}

/// The plan for a request to play `name`: none where the name designates no
/// pattern, or one without a rhythm.
pub open spec fn plan_for(config: EngineConfigView, name: Seq<char>, repeat_override: int) -> Option<
    Plan,
> {
    match lookup(config.patterns, name) {
        Some(i) => match config.patterns[i].rhythm {
            Some(rhythm) => Some(
                Plan {
                    rhythm,
                    pause: config.pause_ms,
                    repetitions: effective_repetitions(config.patterns[i].repeat, repeat_override),
                },
            ),
            None => None,
        },
        None => None,
    }
}

/// The directives that a request to play `name` gives rise to, the final one
/// aside: none at all where there is no plan.
pub open spec fn script_for(config: EngineConfigView, name: Seq<char>, repeat_override: int) -> Seq<
    DirectiveView,
> {
    match plan_for(config, name, repeat_override) {
        Some(plan) => plan.script(),
        None => Seq::empty(),
    }
}

/// One move of the executor, on the directives that are still to come: a
/// request that the poll gave ends the run at once and is handed on; without
/// one the next directive is due, and after the last the run ends idle.
pub open spec fn step(remaining: Seq<DirectiveView>, polled: Option<RequestView>) -> (
    DirectiveView,
    Seq<DirectiveView>,
) {
    match polled {
        Some(request) => (DirectiveView::Finish { request }, Seq::empty()),
        None => if remaining.len() > 0 {
            (remaining[0], remaining.drop_first())
        } else {
            (DirectiveView::Finish { request: idle_request() }, Seq::empty())
        },
    }
}

/// The directives handed out in a run, up to the one that ends it, where the
/// polls give `polls` in this order. The first of `polls` stands for the call
/// that begins the run, before anything was polled.
pub open spec fn handed_out(remaining: Seq<DirectiveView>, polls: Seq<Option<RequestView>>) -> Seq<
    DirectiveView,
>
    decreases polls.len(),
{
    if polls.len() == 0 {
        Seq::empty()
    } else {
        let (directive, rest) = step(remaining, polls[0]);
        if directive is Finish {
            seq![directive]
        } else {
            seq![directive] + handed_out(rest, polls.drop_first())
        }
    }
}

/// Whether the pin is active after the directives `performed` were carried
/// out, one after the other, on a pin that was active or not as `before` says.
pub open spec fn pin_after(before: bool, performed: Seq<DirectiveView>) -> bool {
    if performed.len() == 0 {
        before
    } else {
        performed.last().pin_active()
    }
}

/// The value of what a poll gave.
pub open spec fn polled_view(polled: Option<Request>) -> Option<RequestView> {
    match polled {
        Some(request) => Some(request@),
        None => None,
    }
}

/// Computes [`effective_repetitions`].
pub fn repetitions(configured: u64, repeat_override: i32) -> (n: u64)
    ensures
        n == effective_repetitions(configured, repeat_override as int),
{
    if repeat_override < 0 {
        configured
    } else {
        repeat_override as u64
    }
}

/// Where cycle `cycle`, step `k` stands in the script of `plan`.
pub proof fn script_entry(plan: Plan, cycle: int, k: int)
    requires
        0 <= cycle <= plan.repetitions,
        0 <= k <= plan.rhythm.len(),
    ensures
        0 <= cycle * plan.period() + k < plan.length(),
        plan.script()[cycle * plan.period() + k] == plan.entry(cycle, k),
{
    let d = plan.period();
    let n = cycle * d + k;
    assert(0 <= cycle * d) by (nonlinear_arith)
        requires
            0 <= cycle,
            0 < d,
    ;
    assert(n < plan.cycles() * d) by (nonlinear_arith)
        requires
            n == cycle * d + k,
            0 <= k < d,
            cycle + 1 <= plan.cycles(),
    ;
    lemma_fundamental_div_mod_converse(n, d, cycle, k);
}

/// The state of one run of a pattern.
pub struct Executor {
    rhythm: Vec<u64>,
    pause_ms: u64,
    repetitions: u64,
    cycle: u64,
    step: usize,
    finished: bool,
}

impl View for Executor {
    type V = Seq<DirectiveView>;

    /// The directives that are still to come if no request arrives, the final
    /// one aside.
    closed spec fn view(&self) -> Seq<DirectiveView> {
        if self.finished {
            Seq::empty()
        } else {
            self.plan().script().skip(self.position())
        }
    }
}

impl Executor {
    #[verifier::type_invariant]
    spec fn inv(self) -> bool {
        self.finished || (self.cycle <= self.repetitions && self.step <= self.rhythm@.len())
    }

    spec fn plan(self) -> Plan {
        Plan { rhythm: self.rhythm@, pause: self.pause_ms, repetitions: self.repetitions as nat }
    }

    spec fn position(self) -> int {
        self.cycle * (self.rhythm@.len() + 1) + self.step
    }

    /// Begins the run that a request to play `name` asks for.
    pub fn start(config: &EngineConfig, name: &str, repeat_override: i32) -> (executor: Executor)
        ensures
            executor@ == script_for(config@, name@, repeat_override as int),
    {
        match config.find_pattern(name) {
            Some(i) => {
                let pattern = &config.patterns[i];
                match &pattern.rhythm {
                    Some(rhythm) => {
                        let executor = Executor {
                            rhythm: rhythm.clone(),
                            pause_ms: config.pause_ms,
                            repetitions: repetitions(pattern.repeat, repeat_override),
                            cycle: 0,
                            step: 0,
                            finished: false,
                        };
                        proof {
                            assert(executor.rhythm@ =~= rhythm@);
                            assert(config@.patterns[i as int] == pattern@);
                            assert(executor.plan().script().skip(0) =~= executor.plan().script());
                        }
                        executor
                    },
                    None => Executor::spent(),
                }
            },
            None => Executor::spent(),
        }
    }

    /// A run with nothing to play.
    fn spent() -> (executor: Executor)
        ensures
            executor@ == Seq::<DirectiveView>::empty(),
    {
        Executor {
            rhythm: Vec::new(),
            pause_ms: 0,
            repetitions: 0,
            cycle: 0,
            step: 0,
            finished: true,
        }
    }

    /// Takes what the poll gave and hands out the next directive.
    pub fn advance(&mut self, polled: Option<Request>) -> (directive: Directive)
        ensures
            (directive@, final(self)@) == step(old(self)@, polled_view(polled)),
    {
        proof {
            use_type_invariant(&*self);
        }
        match polled {
            Some(request) => {
                self.finished = true;
                Directive::Finish { request }
            },
            None => {
                if self.finished {
                    Directive::Finish { request: Request::idle() }
                } else {
                    let ghost plan = self.plan();
                    let ghost at = self.position();
                    proof {
                        script_entry(plan, self.cycle as int, self.step as int);
                        assert(self@.drop_first() =~= plan.script().skip(at + 1));
                    }
                    if self.step < self.rhythm.len() {
                        let k = self.step;
                        self.step = k + 1;
                        Directive::Sound { active: k % 2 == 0, millis: self.rhythm[k] }
                    } else if self.cycle == self.repetitions {
                        self.finished = true;
                        proof {
                            assert(at + 1 == plan.length()) by (nonlinear_arith)
                                requires
                                    at == plan.repetitions * plan.period() + plan.rhythm.len(),
                                    plan.length() == (plan.repetitions + 1) * plan.period(),
                                    plan.period() == plan.rhythm.len() + 1,
                            ;
                            assert(plan.script().skip(at + 1) =~= Seq::<DirectiveView>::empty());
                        }
                        Directive::Rest { pause: None }
                    } else {
                        let ghost cycle = self.cycle as int;
                        self.cycle = self.cycle + 1;
                        self.step = 0;
                        proof {
                            let next = self.position();
                            assert(next == at + 1) by (nonlinear_arith)
                                requires
                                    next == (cycle + 1) * plan.period(),
                                    at == cycle * plan.period() + plan.rhythm.len(),
                                    plan.period() == plan.rhythm.len() + 1,
                            ;
                        }
                        Directive::Rest { pause: Some(self.pause_ms) }
                    }
                }
            },
        }
    }
}

} // verus!
