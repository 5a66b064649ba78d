//! Loading the configuration: where its file is looked for, and how a JSON
//! document is read as settings.

use vstd::prelude::*;
use vstd::string::StringExecFns;
use crate::config::{
    pattern_views, EngineConfig, EngineConfigView, PatternConfig, PatternView, Settings,
    SettingsView, TransportConfig, TransportConfigView, DEFAULT_PAUSE_MS,
};
use crate::json::{document_of, Json};

verus! {

/// The name of the configuration file.
pub const CONFIG_FILE_NAME: &'static str = "buzzd.json";

/// The directory that holds the configuration of the whole system.
pub const SYSTEM_DIRECTORY: &'static str = "/etc";

/// Where the configuration file is looked for.
#[derive(Clone, Copy, Debug, PartialEq, Eq, Structural)]
pub enum Place {
    /// The directory that the program was started in.
    WorkingDirectory,
    /// The directory that holds the configuration of the user.
    UserDirectory,
    /// The directory that holds the configuration of the whole system.
    SystemDirectory,
}

/// The place whose file is used, given where there is one: the working
/// directory comes before the user's, and the user's before the system's.
pub fn first_place(in_working: bool, in_user: bool, in_system: bool) -> (place: Option<Place>)
    ensures
        place == if in_working {
            Some(Place::WorkingDirectory)
        } else if in_user {
            Some(Place::UserDirectory)
        } else if in_system {
            Some(Place::SystemDirectory)
        } else {
            None
        },
{
    if in_working {
        Some(Place::WorkingDirectory)
    } else if in_user {
        Some(Place::UserDirectory)
    } else if in_system {
        Some(Place::SystemDirectory)
    } else {
        None
    }
}

/// The largest id that a pin can have.
pub const LARGEST_PIN_ID: u64 = 255;

/// Why a document is no configuration.
#[derive(Clone, Copy, Debug, PartialEq, Eq, Structural)]
pub enum ConfigError {
    /// The text is no JSON.
    Unparsable,
    /// `gpio` is missing, or no unsigned integer.
    MissingPin,
    /// `gpio` is an unsigned integer above 255: no pin has this id.
    InvalidPin,
    /// A pattern has no `name`, or one that is no string.
    UnnamedPattern,
    /// A step of a pattern's `rhythm` is no unsigned integer.
    InvalidStep,
    /// A pattern with a rhythm has no `repeat`, or one that is no unsigned
    /// integer.
    InvalidRepeat,
}

/// The member `key` of `document`, and `null` where there is none: what
/// indexing a document with a key gives.
pub open spec fn field(document: Json, key: Seq<char>) -> Json {
    match document.member(key) {
        Some(value) => value,
        None => Json::Null,
    }
}

/// The steps that the items of a `rhythm` write: none where an item is no
/// unsigned integer.
pub open spec fn steps_of(items: Seq<Json>) -> Option<Seq<u64>> {
    if forall|i: int| 0 <= i < items.len() ==> (#[trigger] items[i]).unsigned() is Some {
        Some(Seq::new(items.len(), |i: int| items[i].unsigned()->0))
    } else {
        None
    }
}

/// The pattern that an entry of `patterns` writes. A `rhythm` that is no
/// array counts as none, and the pattern then needs no `repeat`.
pub open spec fn pattern_of(entry: Json) -> Result<PatternView, ConfigError> {
    match field(entry, "name"@).text() {
        None => Err(ConfigError::UnnamedPattern),
        Some(name) => match field(entry, "rhythm"@).items() {
            None => Ok(
                PatternView {
                    name,
                    rhythm: None,
                    repeat: match field(entry, "repeat"@).unsigned() {
                        Some(repeat) => repeat,
                        None => 0,
                    },
                },
            ),
            Some(items) => match steps_of(items) {
                None => Err(ConfigError::InvalidStep),
                Some(steps) => match field(entry, "repeat"@).unsigned() {
                    None => Err(ConfigError::InvalidRepeat),
                    Some(repeat) => Ok(PatternView { name, rhythm: Some(steps), repeat }),
                },
            },
        },
    }
}

/// The patterns that the entries write, in their order; where some entries
/// are faulty, the error of the first of them.
pub open spec fn patterns_of(entries: Seq<Json>) -> Result<Seq<PatternView>, ConfigError>
    decreases entries.len(),
{
    if entries.len() == 0 {
        Ok(Seq::empty())
    } else {
        match patterns_of(entries.drop_last()) {
            Err(error) => Err(error),
            Ok(patterns) => match pattern_of(entries.last()) {
                Err(error) => Err(error),
                Ok(pattern) => Ok(patterns.push(pattern)),
            },
        }
    }
}

/// The engine's configuration that `document` writes. The pin is the one
/// that `gpio` names, and an id above 255 names none; the pause comes from
/// `pause`, 500 where that is no unsigned integer; the patterns from
/// `patterns`, none where that is no array. A missing or invalid pin is
/// reported before a faulty pattern.
pub open spec fn config_of(document: Json) -> Result<EngineConfigView, ConfigError> {
    match field(document, "gpio"@).unsigned() {
        None => Err(ConfigError::MissingPin),
        Some(gpio) => if gpio > LARGEST_PIN_ID {
            Err(ConfigError::InvalidPin)
        } else {
            let entries = match field(document, "patterns"@).items() {
                Some(entries) => entries,
                None => Seq::empty(),
            };
            match patterns_of(entries) {
                Err(error) => Err(error),
                Ok(patterns) => Ok(
                    EngineConfigView {
                        patterns,
                        pause_ms: match field(document, "pause"@).unsigned() {
                            Some(pause) => pause,
                            None => DEFAULT_PAUSE_MS,
                        },
                        pin_id: gpio as u8,
                    },
                ),
            }
        },
    }
}

/// The transport's configuration that `document` writes: `mqtt.broker` and
/// `mqtt.topic`, and `localhost` and `buzzd` where they are no strings.
pub open spec fn transport_of(document: Json) -> TransportConfigView {
    let mqtt = field(document, "mqtt"@);
    TransportConfigView {
        broker: match field(mqtt, "broker"@).text() {
            Some(broker) => broker,
            None => "localhost"@,
        },
        topic: match field(mqtt, "topic"@).text() {
            Some(topic) => topic,
            None => "buzzd"@,
        },
    }
}

/// The settings that `document` writes: those of the engine, which may be
/// faulty, and those of the transport.
pub open spec fn settings_of(document: Json) -> Result<SettingsView, ConfigError> {
    match config_of(document) {
        Ok(engine) => Ok(SettingsView { engine, transport: transport_of(document) }),
        Err(error) => Err(error),
    }
}

/// The settings that the text `text` writes: those of its document, where it
/// is JSON.
pub open spec fn settings_in(text: Seq<char>) -> Result<SettingsView, ConfigError> {
    match document_of(text) {
        Some(document) => settings_of(document),
        None => Err(ConfigError::Unparsable),
    }
}

/// Reads the member `key` of `document` as an unsigned integer.
fn unsigned_at(document: &Json, key: &str) -> (n: Option<u64>)
    ensures
        n == field(*document, key@).unsigned(),
{
    match document.get(key) {
        Some(value) => value.as_u64(),
        None => None,
    }
}

/// Reads the member `key` of `document` as a string.
fn text_at<'a>(document: &'a Json, key: &str) -> (s: Option<&'a str>)
    ensures
        match s {
            Some(s) => field(*document, key@).text() == Some(s@),
            None => field(*document, key@).text() is None,
        },
{
    match document.get(key) {
        Some(value) => value.as_str(),
        None => None,
    }
}

/// Reads the member `key` of `document` as an array.
fn items_at<'a>(document: &'a Json, key: &str) -> (items: Option<&'a Vec<Json>>)
    ensures
        match items {
            Some(items) => field(*document, key@).items() == Some(items@),
            None => field(*document, key@).items() is None,
        },
{
    match document.get(key) {
        Some(value) => value.as_array(),
        None => None,
    }
}

/// Reads the steps of a rhythm.
fn read_steps(items: &Vec<Json>) -> (steps: Option<Vec<u64>>)
    ensures
        match steps {
            Some(steps) => steps_of(items@) == Some(steps@),
            None => steps_of(items@) is None,
        },
{
    let mut steps: Vec<u64> = Vec::new();
    let mut i: usize = 0;
    while i < items.len()
        invariant
            i <= items.len(),
            steps@.len() == i,
            forall|j: int| 0 <= j < i ==> (#[trigger] items@[j]).unsigned() == Some(steps@[j]),
        decreases items.len() - i,
    {
        match items[i].as_u64() {
            Some(step) => {
                steps.push(step);
            },
            None => {
                return None;
            },
        }
        i = i + 1;
    }
    proof {
        assert(steps@ =~= steps_of(items@)->0);
    }
    Some(steps)
}

impl PatternConfig {
    /// Reads one entry of `patterns`.
    pub fn from_document(entry: &Json) -> (read: Result<PatternConfig, ConfigError>)
        ensures
            match read {
                Ok(pattern) => pattern_of(*entry) == Ok::<PatternView, ConfigError>(pattern@),
                Err(error) => pattern_of(*entry) == Err::<PatternView, ConfigError>(error),
            },
    {
        let name = match text_at(entry, "name") {
            Some(name) => String::from_str(name),
            None => {
                return Err(ConfigError::UnnamedPattern);
            },
        };
        let repeat = unsigned_at(entry, "repeat");
        match items_at(entry, "rhythm") {
            None => Ok(
                PatternConfig {
                    name,
                    rhythm: None,
                    repeat: match repeat {
                        Some(repeat) => repeat,
                        None => 0,
                    },
                },
            ),
            Some(items) => match read_steps(items) {
                None => Err(ConfigError::InvalidStep),
                Some(steps) => match repeat {
                    None => Err(ConfigError::InvalidRepeat),
                    Some(repeat) => Ok(PatternConfig { name, rhythm: Some(steps), repeat }),
                },
            },
        }
    }
}

/// Reads the entries of `patterns`.
fn read_patterns(entries: &Vec<Json>) -> (read: Result<Vec<PatternConfig>, ConfigError>)
    ensures
        match read {
            Ok(patterns) => patterns_of(entries@) == Ok::<Seq<PatternView>, ConfigError>(
                pattern_views(patterns@),
            ),
            Err(error) => patterns_of(entries@) == Err::<Seq<PatternView>, ConfigError>(error),
        },
{
    let mut patterns: Vec<PatternConfig> = Vec::new();
    let mut i: usize = 0;
    proof {
        assert(pattern_views(patterns@) =~= Seq::<PatternView>::empty());
    }
    while i < entries.len()
        invariant
            i <= entries.len(),
            patterns_of(entries@.take(i as int)) == Ok::<Seq<PatternView>, ConfigError>(
                pattern_views(patterns@),
            ),
        decreases entries.len() - i,
    {
        let ghost longer = entries@.take(i + 1);
        proof {
            assert(longer.drop_last() =~= entries@.take(i as int));
            assert(longer.last() == entries@[i as int]);
        }
        match PatternConfig::from_document(&entries[i]) {
            Ok(pattern) => {
                let ghost before = pattern_views(patterns@);
                patterns.push(pattern);
                proof {
                    assert(pattern_views(patterns@) =~= before.push(pattern@));
                }
            },
            Err(error) => {
                proof {
                    faulty_entry_decides(entries@, i + 1);
                }
                return Err(error);
            },
        }
        i = i + 1;
    }
    proof {
        assert(entries@.take(i as int) =~= entries@);
    }
    Ok(patterns)
}

/// Once the first `n` entries hold a faulty one, the entries that follow do
/// not change the error.
proof fn faulty_entry_decides(entries: Seq<Json>, n: int)
    requires
        0 <= n <= entries.len(),
        patterns_of(entries.take(n)) is Err,
    ensures
        patterns_of(entries) == patterns_of(entries.take(n)),
    decreases entries.len() - n,
{
    if n < entries.len() {
        assert(entries.take(n + 1).drop_last() =~= entries.take(n));
        faulty_entry_decides(entries, n + 1);
    } else {
        assert(entries.take(n) =~= entries);
    }
}

impl TransportConfig {
    /// Reads the transport's configuration from a document.
    pub fn from_document(document: &Json) -> (config: TransportConfig)
        ensures
            config@ == transport_of(*document),
    {
        let (broker, topic) = match document.get("mqtt") {
            Some(mqtt) => (text_at(mqtt, "broker"), text_at(mqtt, "topic")),
            None => (None, None),
        };
        TransportConfig {
            broker: String::from_str(
                match broker {
                    Some(broker) => broker,
                    None => "localhost",
                },
            ),
            topic: String::from_str(
                match topic {
                    Some(topic) => topic,
                    None => "buzzd",
                },
            ),
        }
    }
}

impl ConfigError {
    /// Says in words what is wrong.
    pub fn message(&self) -> (words: &'static str)
        ensures
            words@ == match *self {
                ConfigError::Unparsable => "unable to parse configuration file"@,
                ConfigError::MissingPin => "configuration does not define buzzer GPIO pin"@,
                ConfigError::InvalidPin => "failed to access buzzer GPIO pin"@,
                ConfigError::UnnamedPattern => "pattern without name"@,
                ConfigError::InvalidStep => "invalid step in rhythm for pattern"@,
                ConfigError::InvalidRepeat => "invalid repeat value for pattern"@,
            },
    {
        match self {
            ConfigError::Unparsable => "unable to parse configuration file",
            ConfigError::MissingPin => "configuration does not define buzzer GPIO pin",
            ConfigError::InvalidPin => "failed to access buzzer GPIO pin",
            ConfigError::UnnamedPattern => "pattern without name",
            ConfigError::InvalidStep => "invalid step in rhythm for pattern",
            ConfigError::InvalidRepeat => "invalid repeat value for pattern",
        }
    }
}

impl Settings {
    /// Reads the settings from a document.
    pub fn from_document(document: &Json) -> (read: Result<Settings, ConfigError>)
        ensures
            match read {
                Ok(settings) => settings_of(*document) == Ok::<SettingsView, ConfigError>(
                    settings@,
                ),
                Err(error) => settings_of(*document) == Err::<SettingsView, ConfigError>(error),
            },
    {
        match EngineConfig::from_document(document) {
            Ok(engine) => Ok(
                Settings { engine, transport: TransportConfig::from_document(document) },
            ),
            Err(error) => Err(error),
        }
    }

    /// Reads the settings from a JSON text.
    pub fn from_json(text: &str) -> (read: Result<Settings, ConfigError>)
        ensures
            match read {
                Ok(settings) => settings_in(text@) == Ok::<SettingsView, ConfigError>(settings@),
                Err(error) => settings_in(text@) == Err::<SettingsView, ConfigError>(error),
            },
    {
        match Json::parse(text) {
            Some(document) => Settings::from_document(&document),
            None => Err(ConfigError::Unparsable),
        }
    }
}

impl EngineConfig {
    /// Reads the engine's configuration from a document.
    pub fn from_document(document: &Json) -> (read: Result<EngineConfig, ConfigError>)
        ensures
            match read {
                Ok(config) => config_of(*document) == Ok::<EngineConfigView, ConfigError>(config@),
                Err(error) => config_of(*document) == Err::<EngineConfigView, ConfigError>(error),
            },
    {
        let gpio = match unsigned_at(document, "gpio") {
            Some(gpio) => gpio,
            None => {
                return Err(ConfigError::MissingPin);
            },
        };
        if gpio > LARGEST_PIN_ID {
            return Err(ConfigError::InvalidPin);
        }
        let patterns = match items_at(document, "patterns") {
            Some(entries) => match read_patterns(entries) {
                Ok(patterns) => patterns,
                Err(error) => {
                    return Err(error);
                },
            },
            None => {
                let none: Vec<PatternConfig> = Vec::new();
                proof {
                    assert(pattern_views(none@) =~= Seq::<PatternView>::empty());
                }
                none
            },
        };
        let pause_ms = match unsigned_at(document, "pause") {
            Some(pause) => pause,
            None => DEFAULT_PAUSE_MS,
        };
        Ok(EngineConfig { patterns, pause_ms, pin_id: gpio as u8 })
    }
}

} // verus!
