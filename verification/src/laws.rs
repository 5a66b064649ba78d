//! What holds of the engine as a whole: of the executor's runs, of the
//! playback machine's iterations, and of the two together.

use vstd::prelude::*;
use crate::command::{translation, word_end, word_start};
use crate::config::{designates, lookup, unknown, EngineConfigView};
use crate::executor::{
    effective_repetitions, handed_out, pin_after, plan_for, script_entry, script_for, step,
    DirectiveView, Plan,
};
use crate::json::Json;
use crate::load::{config_of, field, ConfigError, LARGEST_PIN_ID};
use crate::playback::{
    awaiting, carried_over, dispatched, iteration, taken, DispatchView, PlaybackView,
};
use crate::request::{idle_request, RequestView};

verus! {

/// An override that is not negative is the number of repetitions, whatever
/// count the pattern is configured with.
pub proof fn override_replaces_count(configured: u64, other: u64, repeat_override: int)
    requires
        repeat_override >= 0,
    ensures
        effective_repetitions(configured, repeat_override) == repeat_override,
        effective_repetitions(configured, repeat_override) == effective_repetitions(
            other,
            repeat_override,
        ),
{
}

/// A negative override leaves the count that the pattern is configured with.
pub proof fn negative_override_keeps_count(configured: u64, repeat_override: int)
    requires
        repeat_override < 0,
    ensures
        effective_repetitions(configured, repeat_override) == configured,
{
}

/// A pattern is played once more than it is repeated: with `n` repetitions
/// the script holds `n + 1` cycles, each of them the whole rhythm and a rest,
/// and a pause is due after every cycle but the last.
pub proof fn cycles_are_one_more_than_repetitions(plan: Plan, cycle: int, k: int)
    requires
        0 <= cycle <= plan.repetitions,
        0 <= k <= plan.rhythm.len(),
    ensures
        plan.script().len() == (plan.repetitions + 1) * (plan.rhythm.len() + 1),
        0 <= cycle * (plan.rhythm.len() + 1) + k < plan.script().len(),
        k < plan.rhythm.len() ==> plan.script()[cycle * (plan.rhythm.len() + 1) + k]
            == (DirectiveView::Sound { active: k % 2 == 0, millis: plan.rhythm[k] }),
        k == plan.rhythm.len() && cycle < plan.repetitions ==> plan.script()[cycle * (
        plan.rhythm.len() + 1) + k] == (DirectiveView::Rest { pause: Some(plan.pause) }),
        k == plan.rhythm.len() && cycle == plan.repetitions ==> plan.script()[cycle * (
        plan.rhythm.len() + 1) + k] == (DirectiveView::Rest { pause: None }),
{
    script_entry(plan, cycle, k);
}

/// With an override of zero a pattern is played exactly once: its script is
/// the rhythm and one rest without a pause.
pub proof fn override_of_zero_plays_once(config: EngineConfigView, name: Seq<char>)
    requires
        plan_for(config, name, 0) is Some,
    ensures
        ({
            let plan = plan_for(config, name, 0)->0;
            let script = script_for(config, name, 0);
            &&& plan.cycles() == 1
            &&& script.len() == plan.rhythm.len() + 1
            &&& script.last() == (DirectiveView::Rest { pause: None })
            &&& forall|k: int|
                0 <= k < plan.rhythm.len() ==> #[trigger] script[k] == (DirectiveView::Sound {
                    active: k % 2 == 0,
                    millis: plan.rhythm[k],
                })
        }),
{
    let plan = plan_for(config, name, 0)->0;
    let script = script_for(config, name, 0);
    assert(plan.length() == plan.period()) by (nonlinear_arith)
        requires
            plan.length() == (plan.repetitions + 1) * plan.period(),
            plan.repetitions == 0,
            plan.period() > 0,
    ;
    assert forall|k: int| 0 <= k <= plan.rhythm.len() implies #[trigger] script[k] == plan.entry(
        0,
        k,
    ) by {
        script_entry(plan, 0, k);
        assert(0 * plan.period() + k == k);
    }
}

/// No directive of a script ends the run, and the channel is polled after
/// each of them. Between two polls lies what one directive asks for: one
/// phase of the rhythm, as long as the rhythm says, or the end of a cycle,
/// with the pause or with no suspension at all.
pub proof fn every_directive_is_followed_by_a_poll(plan: Plan, i: int)
    requires
        0 <= i < plan.script().len(),
    ensures
        plan.script()[i].polls(),
        !(plan.script()[i] is Finish),
        plan.script()[i] is Sound ==> exists|k: int|
            0 <= k < plan.rhythm.len() && plan.script()[i].suspension() == Some(
                #[trigger] plan.rhythm[k],
            ),
        plan.script()[i] is Rest ==> plan.script()[i].suspension() == Some(plan.pause)
            || plan.script()[i].suspension() is None,
{
    let k = i % plan.period();
    if plan.script()[i] is Sound {
        assert(0 <= k < plan.rhythm.len());
        assert(plan.script()[i].suspension() == Some(plan.rhythm[k]));
    }
}

/// A request that a poll gives ends the run at once, wherever the run
/// stands: the pin is forced inactive with no further suspension and no
/// further poll, the request is handed on, and nothing of the pattern is
/// left to play.
pub proof fn a_request_ends_the_run_at_once(remaining: Seq<DirectiveView>, request: RequestView)
    ensures
        step(remaining, Some(request)).0 == (DirectiveView::Finish { request }),
        !step(remaining, Some(request)).0.pin_active(),
        step(remaining, Some(request)).0.suspension() is None,
        !step(remaining, Some(request)).0.polls(),
        step(remaining, Some(request)).1.len() == 0,
        step(step(remaining, Some(request)).1, None).0 == (DirectiveView::Finish {
            request: idle_request(),
        }),
{
}

/// A run that no request disturbs hands out its script and then ends idle.
pub proof fn an_undisturbed_run_plays_the_script(
    remaining: Seq<DirectiveView>,
    polls: Seq<Option<RequestView>>,
)
    requires
        forall|i: int| 0 <= i < remaining.len() ==> !(#[trigger] remaining[i] is Finish),
        polls.len() > remaining.len(),
        forall|i: int| 0 <= i <= remaining.len() ==> #[trigger] polls[i] is None,
    ensures
        handed_out(remaining, polls) == remaining.push(
            DirectiveView::Finish { request: idle_request() },
        ),
    decreases remaining.len(),
{
    let end = DirectiveView::Finish { request: idle_request() };
    assert(polls[0] is None);
    if remaining.len() == 0 {
        assert(handed_out(remaining, polls) =~= remaining.push(end));
    } else {
        let rest = remaining.drop_first();
        let later = polls.drop_first();
        assert(!(remaining[0] is Finish));
        assert forall|i: int| 0 <= i < rest.len() implies !(#[trigger] rest[i] is Finish) by {
            assert(rest[i] == remaining[i + 1]);
        }
        assert forall|i: int| 0 <= i <= rest.len() implies #[trigger] later[i] is None by {
            assert(later[i] == polls[i + 1]);
        }
        an_undisturbed_run_plays_the_script(rest, later);
        assert(seq![remaining[0]] + rest.push(end) =~= remaining.push(end));
    }
}

/// A run that a request disturbs hands out the part of its script that came
/// before, and then the request: the request that the poll after the `n`-th
/// directive gives ends the run with the very next directive.
pub proof fn a_disturbed_run_stops_short(
    remaining: Seq<DirectiveView>,
    polls: Seq<Option<RequestView>>,
    n: int,
    request: RequestView,
)
    requires
        forall|i: int| 0 <= i < remaining.len() ==> !(#[trigger] remaining[i] is Finish),
        0 <= n <= remaining.len(),
        n < polls.len(),
        forall|i: int| 0 <= i < n ==> #[trigger] polls[i] is None,
        polls[n] == Some(request),
    ensures
        handed_out(remaining, polls) == remaining.take(n).push(DirectiveView::Finish { request }),
    decreases n,
{
    let end = DirectiveView::Finish { request };
    if n == 0 {
        assert(handed_out(remaining, polls) =~= remaining.take(0).push(end));
    } else {
        let rest = remaining.drop_first();
        let later = polls.drop_first();
        assert(polls[0] is None);
        assert(!(remaining[0] is Finish));
        assert forall|i: int| 0 <= i < rest.len() implies !(#[trigger] rest[i] is Finish) by {
            assert(rest[i] == remaining[i + 1]);
        }
        assert forall|i: int| 0 <= i < n - 1 implies #[trigger] later[i] is None by {
            assert(later[i] == polls[i + 1]);
        }
        assert(later[n - 1] == polls[n]);
        a_disturbed_run_stops_short(rest, later, n - 1, request);
        assert(seq![remaining[0]] + rest.take(n - 1).push(end) =~= remaining.take(n).push(end));
    }
}

/// Every run ends, once the polls are as many as its directives, with a
/// directive that ends it; and that leaves the pin inactive, whether the run
/// was disturbed or not, and however the pin stood before.
pub proof fn a_run_leaves_the_pin_inactive(
    before: bool,
    remaining: Seq<DirectiveView>,
    polls: Seq<Option<RequestView>>,
)
    requires
        forall|i: int| 0 <= i < remaining.len() ==> !(#[trigger] remaining[i] is Finish),
        polls.len() > remaining.len(),
    ensures
        handed_out(remaining, polls).len() > 0,
        handed_out(remaining, polls).last() is Finish,
        !pin_after(before, handed_out(remaining, polls)),
    decreases remaining.len(),
{
    let (directive, rest) = step(remaining, polls[0]);
    if !(directive is Finish) {
        let later = polls.drop_first();
        assert(rest == remaining.drop_first());
        assert forall|i: int| 0 <= i < rest.len() implies !(#[trigger] rest[i] is Finish) by {
            assert(rest[i] == remaining[i + 1]);
        }
        a_run_leaves_the_pin_inactive(before, rest, later);
        let tail = handed_out(rest, later);
        assert((seq![directive] + tail).last() == tail.last());
    }
}

/// A request to cancel that arrives while a pattern is played is served by
/// the next iteration without a wait on the channel, and it leaves the
/// machine awaiting a command, with nothing carried over: no further cycle
/// is played.
pub proof fn cancel_silences_the_pattern(
    remaining: Seq<DirectiveView>,
    cancel: RequestView,
    received: RequestView,
    observed: RequestView,
)
    requires
        cancel.kind is Cancel,
    ensures
        ({
            let (directive, left) = step(remaining, Some(cancel));
            let carrying = carried_over(awaiting(), cancel);
            &&& directive == (DirectiveView::Finish { request: cancel })
            &&& left.len() == 0
            &&& taken(carrying).0 == Some(cancel)
            &&& dispatched(taken(carrying).1, cancel).0 is Continue
            &&& iteration(carrying, received, observed) == awaiting()
        }),
{
}

/// A request to play that arrives while another pattern is played ends that
/// pattern like any other request, and the next iteration hands it to the
/// executor as it would a request from the channel. What is then played is
/// decided by the configuration and the request alone; it begins with the
/// first phase of the first cycle.
pub proof fn a_new_pattern_starts_afresh(
    config: EngineConfigView,
    remaining: Seq<DirectiveView>,
    play: RequestView,
    received: RequestView,
)
    requires
        play.kind is Play,
    ensures
        ({
            let (directive, left) = step(remaining, Some(play));
            let carrying = carried_over(awaiting(), play);
            &&& directive == (DirectiveView::Finish { request: play })
            &&& left.len() == 0
            &&& taken(carrying).0 == Some(play)
            &&& dispatched(taken(carrying).1, play) == dispatched(awaiting(), play)
            &&& dispatched(awaiting(), play).0 == (DispatchView::Execute {
                pattern: play.pattern,
                repeat_override: play.repeat_override,
            })
        }),
        plan_for(config, play.pattern, play.repeat_override) matches Some(plan) ==> script_for(
            config,
            play.pattern,
            play.repeat_override,
        )[0] == plan.entry(0, 0),
{
    if let Some(plan) = plan_for(config, play.pattern, play.repeat_override) {
        script_entry(plan, 0, 0);
        assert(0 * plan.period() + 0 == 0);
    }
}

/// A name that designates no pattern plays nothing: the run ends with its
/// first directive, which leaves the pin inactive, and the machine goes on
/// awaiting a command, with nothing carried over.
pub proof fn an_unknown_name_plays_nothing(
    config: EngineConfigView,
    name: Seq<char>,
    repeat_override: int,
)
    requires
        unknown(config.patterns, name),
    ensures
        script_for(config, name, repeat_override).len() == 0,
        step(script_for(config, name, repeat_override), None) == (
            DirectiveView::Finish { request: idle_request() },
            Seq::<DirectiveView>::empty(),
        ),
        carried_over(awaiting(), idle_request()) == awaiting(),
{
    if exists|i: int| designates(config.patterns, name, i) {
        let i = choose|i: int| designates(config.patterns, name, i);
        assert(!designates(config.patterns, name, i));
    }
    assert(lookup(config.patterns, name) is None);
}

/// A command that gives no count leaves the count that the pattern is
/// configured with.
pub proof fn a_command_without_count_keeps_count(text: Seq<char>, configured: u64)
    requires
        word_start(text, word_end(text, word_start(text, 0))) == text.len(),
    ensures
        translation(text).repeat_override < 0,
        effective_repetitions(configured, translation(text).repeat_override) == configured,
{
}

/// A configuration that loads drives the pin that `gpio` names and no other:
/// an id that no pin has fails the load, as a missing one does.
pub proof fn the_pin_is_the_one_configured(document: Json)
    ensures
        config_of(document) matches Ok(config) ==> field(document, "gpio"@).unsigned() == Some(
            config.pin_id as u64,
        ),
        field(document, "gpio"@).unsigned() is None ==> config_of(document) == Err::<
            EngineConfigView,
            ConfigError,
        >(ConfigError::MissingPin),
        field(document, "gpio"@).unsigned() matches Some(gpio) && gpio > LARGEST_PIN_ID
            ==> config_of(document) == Err::<EngineConfigView, ConfigError>(
            ConfigError::InvalidPin,
        ),
{
}

/// The empty name designates no pattern, whatever the configuration holds.
pub proof fn the_empty_name_is_unknown(config: EngineConfigView)
    ensures
        unknown(config.patterns, Seq::<char>::empty()),
{
}

/// The machine after a number of iterations. Each of `inputs` gives what the
/// channel holds for the iteration, and what the executor hands back in it.
pub open spec fn after_iterations(state: PlaybackView, inputs: Seq<(RequestView, RequestView)>) -> PlaybackView
    decreases inputs.len(),
{
    if inputs.len() == 0 {
        state
    } else {
        iteration(after_iterations(state, inputs.drop_last()), inputs.last().0, inputs.last().1)
    }
}

/// As long as no request to terminate arrives, on the channel or during a
/// pattern, the machine goes on serving, and carries over no such request.
pub proof fn commands_keep_playback_running(inputs: Seq<(RequestView, RequestView)>)
    requires
        forall|i: int|
            0 <= i < inputs.len() ==> !((#[trigger] inputs[i]).0.kind is Terminate)
                && !(inputs[i].1.kind is Terminate),
    ensures
        !after_iterations(awaiting(), inputs).terminated,
        after_iterations(awaiting(), inputs).carried matches Some(request) ==> !(request.kind
            is Terminate),
    decreases inputs.len(),
{
    if inputs.len() > 0 {
        let earlier = inputs.drop_last();
        assert forall|i: int| 0 <= i < earlier.len() implies !((#[trigger] earlier[i]).0.kind
            is Terminate) && !(earlier[i].1.kind is Terminate) by {
            assert(earlier[i] == inputs[i]);
        }
        commands_keep_playback_running(earlier);
        assert(inputs.last() == inputs[inputs.len() - 1]);
    }
}

/// A request to terminate ends playback from every state in which the
/// machine serves: whether it comes from the channel while the machine
/// awaits a command, or was carried over from a pattern that it ended.
pub proof fn terminate_ends_playback(
    state: PlaybackView,
    terminate: RequestView,
    received: RequestView,
    observed: RequestView,
)
    requires
        !state.terminated,
        terminate.kind is Terminate,
    ensures
        dispatched(state, terminate).0 is Stop,
        dispatched(state, terminate).1.terminated,
        state.carried is None ==> iteration(state, terminate, observed).terminated,
        iteration(carried_over(state, terminate), received, observed).terminated,
{
}

/// Once a request to terminate is what the channel holds next, playback ends
/// within two iterations. The first of them may still serve a request that
/// was carried over; the pattern that it may ask for meets the request to
/// terminate at its first poll, or ends idle without a poll.
pub proof fn terminate_is_served_within_two_iterations(
    state: PlaybackView,
    terminate: RequestView,
    observed: RequestView,
)
    requires
        terminate.kind is Terminate,
        observed.kind is Idle || observed == terminate,
    ensures
        iteration(iteration(state, terminate, observed), terminate, observed).terminated,
{
}

/// Playback that has ended stays ended.
pub proof fn ended_playback_stays_ended(
    state: PlaybackView,
    received: RequestView,
    observed: RequestView,
)
    requires
        state.terminated,
    ensures
        iteration(state, received, observed).terminated,
{
}

} // verus!
