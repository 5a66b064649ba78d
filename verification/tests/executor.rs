use buzzd::config::{EngineConfig, PatternConfig};
use buzzd::executor::{repetitions, Directive, Executor};
use buzzd::request::{Request, RequestKind};

fn pattern(name: &str, rhythm: Option<Vec<u64>>, repeat: u64) -> PatternConfig {
    PatternConfig { name: String::from(name), rhythm, repeat }
}

fn config(patterns: Vec<PatternConfig>, pause_ms: u64) -> EngineConfig {
    EngineConfig { patterns, pause_ms, pin_id: 17 }
}

fn request(kind: RequestKind, pattern: &str, repeat_override: i32) -> Request {
    Request { kind, pattern: String::from(pattern), repeat_override }
}

fn sound(active: bool, millis: u64) -> Directive {
    Directive::Sound { active, millis }
}

fn rest(pause: Option<u64>) -> Directive {
    Directive::Rest { pause }
}

fn finish(request: Request) -> Directive {
    Directive::Finish { request }
}

/// Runs a pattern to its end. The request `arrival.1` is polled after the
/// directive with the index `arrival.0` was carried out.
fn run(
    config: &EngineConfig,
    name: &str,
    repeat_override: i32,
    arrival: Option<(usize, Request)>,
) -> Vec<Directive> {
    let mut executor = Executor::start(config, name, repeat_override);
    let mut handed_out = Vec::new();
    let mut directive = executor.advance(None);
    let mut arrival = arrival;
    loop {
        let ended = matches!(directive, Directive::Finish { .. });
        handed_out.push(directive);
        if ended {
            return handed_out;
        }
        assert!(handed_out.len() < 10_000, "the run does not end");
        let polled = match &arrival {
            Some((at, _)) if *at + 1 == handed_out.len() => arrival.take().map(|(_, r)| r),
            _ => None,
        };
        directive = executor.advance(polled);
    }
}

/// The levels that the pin is set to, and the suspensions, in order.
fn pin_and_sleeps(directives: &[Directive]) -> (Vec<bool>, Vec<u64>) {
    let mut levels = Vec::new();
    let mut sleeps = Vec::new();
    for directive in directives {
        match directive {
            Directive::Sound { active, millis } => {
                levels.push(*active);
                sleeps.push(*millis);
            }
            Directive::Rest { pause } => {
                levels.push(false);
                if let Some(pause) = pause {
                    sleeps.push(*pause);
                }
            }
            Directive::Finish { .. } => levels.push(false),
        }
    }
    (levels, sleeps)
}

fn beeps() -> EngineConfig {
    config(vec![pattern("beep", Some(vec![100, 100]), 2)], 50)
}

#[test]
fn two_repetitions_make_three_cycles_and_two_pauses() {
    let directives = run(&beeps(), "beep", -1, None);
    assert_eq!(
        directives,
        vec![
            sound(true, 100),
            sound(false, 100),
            rest(Some(50)),
            sound(true, 100),
            sound(false, 100),
            rest(Some(50)),
            sound(true, 100),
            sound(false, 100),
            rest(None),
            finish(Request::idle()),
        ]
    );
    let (levels, sleeps) = pin_and_sleeps(&directives);
    assert_eq!(levels.iter().filter(|active| **active).count(), 3);
    assert_eq!(sleeps, vec![100, 100, 50, 100, 100, 50, 100, 100]);
    assert_eq!(levels.last(), Some(&false));
}

#[test]
fn an_override_replaces_the_configured_count() {
    for repeat_override in [0, 1, 2, 5, 40] {
        let directives = run(&beeps(), "beep", repeat_override, None);
        let cycles = repeat_override as usize + 1;
        assert_eq!(directives.len(), cycles * 3 + 1);
        let actives = directives.iter().filter(|d| **d == sound(true, 100)).count();
        let pauses = directives.iter().filter(|d| **d == rest(Some(50))).count();
        assert_eq!(actives, cycles);
        assert_eq!(pauses, cycles - 1);
    }
}

#[test]
fn an_override_of_zero_plays_exactly_one_cycle() {
    assert_eq!(
        run(&beeps(), "beep", 0, None),
        vec![sound(true, 100), sound(false, 100), rest(None), finish(Request::idle())]
    );
}

#[test]
fn an_override_counts_whatever_the_configured_count_is() {
    for configured in [0, 1, 7, u64::MAX] {
        let config = config(vec![pattern("beep", Some(vec![100, 100]), configured)], 50);
        assert_eq!(run(&config, "beep", 1, None).len(), 7);
    }
}

#[test]
fn a_negative_override_keeps_the_configured_count() {
    for repeat_override in [-1, -2, -100, i32::MIN] {
        assert_eq!(run(&beeps(), "beep", repeat_override, None).len(), 10);
    }
    let once = config(vec![pattern("beep", Some(vec![5]), 0)], 50);
    assert_eq!(
        run(&once, "beep", -1, None),
        vec![sound(true, 5), rest(None), finish(Request::idle())]
    );
}

#[test]
fn the_repetitions_in_force_are_computed() {
    assert_eq!(repetitions(2, -1), 2);
    assert_eq!(repetitions(2, i32::MIN), 2);
    assert_eq!(repetitions(2, 0), 0);
    assert_eq!(repetitions(2, 9), 9);
    assert_eq!(repetitions(u64::MAX, i32::MAX), 2147483647);
    assert_eq!(repetitions(u64::MAX, -1), u64::MAX);
}

#[test]
fn a_rhythm_of_odd_length_ends_inactive() {
    let config = config(vec![pattern("odd", Some(vec![10, 20, 30]), 1)], 7);
    let directives = run(&config, "odd", -1, None);
    assert_eq!(
        directives,
        vec![
            sound(true, 10),
            sound(false, 20),
            sound(true, 30),
            rest(Some(7)),
            sound(true, 10),
            sound(false, 20),
            sound(true, 30),
            rest(None),
            finish(Request::idle()),
        ]
    );
    let (levels, _) = pin_and_sleeps(&directives);
    assert_eq!(levels, vec![true, false, true, false, true, false, true, false, false]);
}

#[test]
fn an_empty_rhythm_plays_its_pauses_only() {
    let config = config(vec![pattern("still", Some(vec![]), 2)], 9);
    assert_eq!(
        run(&config, "still", -1, None),
        vec![rest(Some(9)), rest(Some(9)), rest(None), finish(Request::idle())]
    );
}

#[test]
fn a_pattern_without_rhythm_plays_nothing() {
    let config = config(vec![pattern("mute", None, 3), pattern("mute", Some(vec![1]), 0)], 9);
    assert_eq!(run(&config, "mute", -1, None), vec![finish(Request::idle())]);
    assert_eq!(run(&config, "mute", 4, None), vec![finish(Request::idle())]);
}

#[test]
fn an_unknown_name_plays_nothing() {
    assert_eq!(run(&beeps(), "boop", -1, None), vec![finish(Request::idle())]);
    assert_eq!(run(&beeps(), "beeps", 3, None), vec![finish(Request::idle())]);
    assert_eq!(run(&beeps(), "bee", 3, None), vec![finish(Request::idle())]);
    assert_eq!(run(&config(vec![], 50), "beep", -1, None), vec![finish(Request::idle())]);
    let (levels, sleeps) = pin_and_sleeps(&run(&beeps(), "boop", -1, None));
    assert_eq!(levels, vec![false]);
    assert!(sleeps.is_empty());
}

#[test]
fn the_empty_name_plays_nothing() {
    let config = config(vec![pattern("", Some(vec![1, 2]), 0)], 50);
    assert_eq!(config.find_pattern(""), None);
    assert_eq!(run(&config, "", -1, None), vec![finish(Request::idle())]);
}

#[test]
fn a_name_is_found_whatever_the_case_of_its_ascii_letters() {
    let config = config(
        vec![
            pattern("Alarm", Some(vec![1]), 0),
            pattern("ALARM", Some(vec![2]), 0),
            pattern("Türklingel", Some(vec![3]), 0),
        ],
        50,
    );
    assert_eq!(config.find_pattern("alarm"), Some(0));
    assert_eq!(config.find_pattern("ALARM"), Some(0));
    assert_eq!(config.find_pattern("tÜRKLINGEL"), None);
    assert_eq!(config.find_pattern("tüRKLINGEL"), Some(2));
    assert_eq!(config.find_pattern("alar"), None);
    assert_eq!(run(&config, "aLaRm", -1, None)[0], sound(true, 1));
}

#[test]
fn the_first_of_two_patterns_with_one_name_is_played() {
    let config =
        config(vec![pattern("a", Some(vec![1]), 0), pattern("b", Some(vec![2]), 0), pattern("B", Some(vec![3]), 0)], 50);
    assert_eq!(config.find_pattern("B"), Some(1));
    assert_eq!(run(&config, "B", -1, None)[0], sound(true, 2));
}

#[test]
fn a_request_ends_the_run_after_any_directive() {
    let whole = run(&beeps(), "beep", -1, None);
    for at in 0..whole.len() - 1 {
        let cancel = request(RequestKind::Cancel, "_", -1);
        let directives = run(&beeps(), "beep", -1, Some((at, cancel)));
        assert_eq!(directives.len(), at + 2);
        assert_eq!(directives[..at + 1], whole[..at + 1]);
        assert_eq!(directives[at + 1], finish(request(RequestKind::Cancel, "_", -1)));
        let (levels, _) = pin_and_sleeps(&directives);
        assert_eq!(levels.last(), Some(&false));
    }
}

#[test]
fn a_request_polled_at_the_start_ends_the_run_before_it_begins() {
    let mut executor = Executor::start(&beeps(), "beep", -1);
    let play = request(RequestKind::Play, "other", 3);
    assert_eq!(executor.advance(Some(play)), finish(request(RequestKind::Play, "other", 3)));
    assert_eq!(executor.advance(None), finish(Request::idle()));
}

#[test]
fn a_run_that_has_ended_hands_on_what_is_polled() {
    let mut executor = Executor::start(&beeps(), "boop", -1);
    assert_eq!(executor.advance(None), finish(Request::idle()));
    assert_eq!(executor.advance(None), finish(Request::idle()));
    assert_eq!(executor.advance(Some(Request::terminate())), finish(Request::terminate()));
    assert_eq!(executor.advance(None), finish(Request::idle()));
}

#[test]
fn any_kind_of_request_ends_the_run() {
    for kind in [RequestKind::Idle, RequestKind::Play, RequestKind::Cancel, RequestKind::Terminate] {
        let directives = run(&beeps(), "beep", -1, Some((3, request(kind, "x", 2))));
        assert_eq!(directives.len(), 5);
        assert_eq!(directives[4], finish(request(kind, "x", 2)));
    }
}

#[test]
fn the_largest_counts_do_not_overflow() {
    let config = config(vec![pattern("long", Some(vec![u64::MAX, 0]), u64::MAX)], u64::MAX);
    let mut executor = Executor::start(&config, "long", -1);
    for _ in 0..1000 {
        assert_eq!(executor.advance(None), sound(true, u64::MAX));
        assert_eq!(executor.advance(None), sound(false, 0));
        assert_eq!(executor.advance(None), rest(Some(u64::MAX)));
    }
    let mut largest = Executor::start(&config, "long", i32::MAX);
    assert_eq!(largest.advance(None), sound(true, u64::MAX));
}
