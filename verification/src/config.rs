//! The configuration: the patterns that the engine can play, the pause
//! between two cycles of a pattern, the pin that it drives, and where the
//! transport finds its broker. Loaded once, never changed.

use vstd::prelude::*;
use crate::text::{chars_of, matches_chars, same_name};

verus! {

/// The pause between two cycles, in milliseconds, where none is configured.
pub const DEFAULT_PAUSE_MS: u64 = 500;

/// A named rhythm and the number of times it is repeated by default.
///
/// The rhythm alternates phases in which the buzzer is active and inactive,
/// beginning with an active one; each entry is a phase's length in
/// milliseconds. A pattern may lack a rhythm: it then plays nothing.
#[derive(Debug, PartialEq, Eq)]
pub struct PatternConfig {
    pub name: String,
    pub rhythm: Option<Vec<u64>>,
    pub repeat: u64,
}

/// The mathematical value of a [`PatternConfig`].
pub struct PatternView {
    pub name: Seq<char>,
    pub rhythm: Option<Seq<u64>>,
    pub repeat: u64,
}

impl View for PatternConfig {
    type V = PatternView;

    open spec fn view(&self) -> PatternView {
        PatternView {
            name: self.name@,
            rhythm: match self.rhythm {
                Some(r) => Some(r@),
                None => None,
            },
            repeat: self.repeat,
        }
    }
}

/// What the playback engine reads of the configuration.
#[derive(Debug, PartialEq, Eq)]
pub struct EngineConfig {
    pub patterns: Vec<PatternConfig>,
    pub pause_ms: u64,
    pub pin_id: u8,
}

/// The mathematical value of an [`EngineConfig`].
pub struct EngineConfigView {
    pub patterns: Seq<PatternView>,
    pub pause_ms: u64,
    pub pin_id: u8,
}

/// The values of a list of patterns.
pub open spec fn pattern_views(patterns: Seq<PatternConfig>) -> Seq<PatternView> {
    Seq::new(patterns.len(), |i: int| patterns[i]@)
}

impl View for EngineConfig {
    type V = EngineConfigView;

    open spec fn view(&self) -> EngineConfigView {
        EngineConfigView {
            patterns: pattern_views(self.patterns@),
            pause_ms: self.pause_ms,
            pin_id: self.pin_id,
        }
    }
}

/// What the transport reads of the configuration: the broker to connect to
/// and the topic to subscribe to.
#[derive(Debug, PartialEq, Eq)]
pub struct TransportConfig {
    pub broker: String,
    pub topic: String,
}

/// The mathematical value of a [`TransportConfig`].
pub struct TransportConfigView {
    pub broker: Seq<char>,
    pub topic: Seq<char>,
}

impl View for TransportConfig {
    type V = TransportConfigView;

    open spec fn view(&self) -> TransportConfigView {
        TransportConfigView { broker: self.broker@, topic: self.topic@ }
    }
}

/// All that the configuration holds.
#[derive(Debug, PartialEq, Eq)]
pub struct Settings {
    pub engine: EngineConfig,
    pub transport: TransportConfig,
}

/// The mathematical value of [`Settings`].
pub struct SettingsView {
    pub engine: EngineConfigView,
    pub transport: TransportConfigView,
}

impl View for Settings {
    type V = SettingsView;

    open spec fn view(&self) -> SettingsView {
        SettingsView { engine: self.engine@, transport: self.transport@ }
    }
}

/// Whether `patterns[i]` is the pattern that `name` designates: the first one
/// whose name is the same, the case of ASCII letters aside. The empty name
/// designates no pattern: it is the name of a command that gave none.
pub open spec fn designates(patterns: Seq<PatternView>, name: Seq<char>, i: int) -> bool {
    &&& 0 <= i < patterns.len()
    &&& name.len() > 0
    &&& same_name(patterns[i].name, name)
    &&& forall|j: int| 0 <= j < i ==> !same_name((#[trigger] patterns[j]).name, name)
}

/// Whether `name` designates no pattern at all.
pub open spec fn unknown(patterns: Seq<PatternView>, name: Seq<char>) -> bool {
    forall|i: int| !designates(patterns, name, i)
}

/// The index of the pattern that `name` designates, if there is one.
pub open spec fn lookup(patterns: Seq<PatternView>, name: Seq<char>) -> Option<int> {
    if exists|i: int| designates(patterns, name, i) {
        Some(choose|i: int| designates(patterns, name, i))
    } else {
        None
    }
}

/// A name designates at most one pattern.
pub proof fn designates_at_most_one(patterns: Seq<PatternView>, name: Seq<char>, i: int, j: int)
    requires
        designates(patterns, name, i),
        designates(patterns, name, j),
    ensures
        i == j,
{
    if i < j {
        assert(!same_name(patterns[i].name, name));
    } else if j < i {
        assert(!same_name(patterns[j].name, name));
    }
}

impl EngineConfig {
    /// The index of the pattern that `name` designates.
    pub fn find_pattern(&self, name: &str) -> (found: Option<usize>)
        ensures
            match found {
                Some(i) => designates(self@.patterns, name@, i as int),
                None => unknown(self@.patterns, name@),
            },
            match found {
                Some(i) => lookup(self@.patterns, name@) == Some(i as int),
                None => lookup(self@.patterns, name@) is None,
            },
    {
        let wanted = chars_of(name);
        if wanted.len() == 0 {
            return None;
        }
        let mut i: usize = 0;
        while i < self.patterns.len()
            invariant
                i <= self.patterns.len(),
                wanted@ == name@,
                name@.len() > 0,
                forall|j: int| 0 <= j < i ==> !same_name((#[trigger] self@.patterns[j]).name, name@),
            decreases self.patterns.len() - i,
        {
            if matches_chars(self.patterns[i].name.as_str(), &wanted) {
                proof {
                    assert(self@.patterns[i as int].name == self.patterns[i as int].name@);
                    assert(designates(self@.patterns, name@, i as int));
                    let k = choose|k: int| designates(self@.patterns, name@, k);
                    designates_at_most_one(self@.patterns, name@, i as int, k);
                }
                return Some(i);
            }
            i = i + 1;
        }
        None
    }
}

} // verus!
