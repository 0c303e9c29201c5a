//! Severities, thresholds, and how a threshold is read from text.

use crate::text::str_of;
use vstd::prelude::*;
use vstd::string::StringExecFns;

verus! {

/// How severe a record is. `Error` is the most severe, `Trace` the least.
#[derive(Clone, Copy, Debug, PartialEq, Eq, Structural)]
pub enum Level {
    Error,
    Warn,
    Info,
    Debug,
    Trace,
}

/// The least severe level that is still let through; `Off` lets nothing
/// through.
#[derive(Clone, Copy, Debug, PartialEq, Eq, Structural)]
pub enum LevelFilter {
    Off,
    Error,
    Warn,
    Info,
    Debug,
    Trace,
}

impl Level {
    /// The place of the level among the levels, counted from the most severe,
    /// which has rank one.
    pub open spec fn rank(self) -> nat {
        match self {
            Level::Error => 1,
            Level::Warn => 2,
            Level::Info => 3,
            Level::Debug => 4,
            Level::Trace => 5,
        }
    }

    /// The label that stands for the level in a line.
    pub open spec fn label_text(self) -> Seq<char> {
        match self {
            Level::Error => "ERROR"@,
            Level::Warn => "WARN "@,
            Level::Info => "INFO "@,
            Level::Debug => "DEBUG"@,
            Level::Trace => "TRACE"@,
        }
    }

    /// The label that stands for the level in a line: the level's name in
    /// capitals, filled up with a blank to five characters.
    pub fn label(self) -> (text: &'static str)
        ensures
            text@ == self.label_text(),
            text@.len() == 5,
    {
        proof {
            reveal_strlit("ERROR");
            reveal_strlit("WARN ");
            reveal_strlit("INFO ");
            reveal_strlit("DEBUG");
            reveal_strlit("TRACE");
        }
        match self {
            Level::Error => "ERROR",
            Level::Warn => "WARN ",
            Level::Info => "INFO ",
            Level::Debug => "DEBUG",
            Level::Trace => "TRACE",
        }
    }

    fn rank_number(self) -> (number: u8)
        ensures
            number == self.rank(),
    {
        match self {
            Level::Error => 1,
            Level::Warn => 2,
            Level::Info => 3,
            Level::Debug => 4,
            Level::Trace => 5,
        }
    }
}

impl LevelFilter {
    /// The rank of the least severe level that passes; zero for `Off`.
    pub open spec fn rank(self) -> nat {
        match self {
            LevelFilter::Off => 0,
            LevelFilter::Error => 1,
            LevelFilter::Warn => 2,
            LevelFilter::Info => 3,
            LevelFilter::Debug => 4,
            LevelFilter::Trace => 5,
        }
    }

    /// Whether a record of the given level passes this threshold.
    pub open spec fn lets_through(self, level: Level) -> bool {
        level.rank() <= self.rank()
    }

    fn rank_number(self) -> (number: u8)
        ensures
            number == self.rank(),
    {
        match self {
            LevelFilter::Off => 0,
            LevelFilter::Error => 1,
            LevelFilter::Warn => 2,
            LevelFilter::Info => 3,
            LevelFilter::Debug => 4,
            LevelFilter::Trace => 5,
        }
    }

    /// Whether a record of the given level passes this threshold: it does
    /// when it is at least as severe as the threshold asks.
    pub fn allows(self, level: Level) -> (passes: bool)
        ensures
            passes == self.lets_through(level),
            self == LevelFilter::Off ==> !passes,
    {
        level.rank_number() <= self.rank_number()
    }
}

/// The lower-case form of an ASCII capital; any other character unchanged.
pub open spec fn ascii_lower(c: char) -> char {
    if 'A' <= c && c <= 'Z' {
        ((c as u32) + 32) as char
    } else {
        c
    }
}

/// Whether two texts are the same once the case of ASCII letters is set
/// aside.
pub open spec fn same_ignoring_ascii_case(a: Seq<char>, b: Seq<char>) -> bool {
    &&& a.len() == b.len()
    &&& forall|i: int| 0 <= i < a.len() ==> ascii_lower(#[trigger] a[i]) == ascii_lower(b[i])
}

/// The threshold that a text names, if it names one: a threshold's name in
/// any mix of upper and lower case.
pub open spec fn level_filter_named(text: Seq<char>) -> Option<LevelFilter> {
    if same_ignoring_ascii_case(text, "OFF"@) {
        Some(LevelFilter::Off)
    } else if same_ignoring_ascii_case(text, "ERROR"@) {
        Some(LevelFilter::Error)
    } else if same_ignoring_ascii_case(text, "WARN"@) {
        Some(LevelFilter::Warn)
    } else if same_ignoring_ascii_case(text, "INFO"@) {
        Some(LevelFilter::Info)
    } else if same_ignoring_ascii_case(text, "DEBUG"@) {
        Some(LevelFilter::Debug)
    } else if same_ignoring_ascii_case(text, "TRACE"@) {
        Some(LevelFilter::Trace)
    } else {
        None
    }
}

/// `log::LevelFilter::from_str`, reached through `str::parse`, goes through
/// the names `OFF`, `ERROR`, `WARN`, `INFO`, `DEBUG`, `TRACE` in this order
/// and answers with the first that equals the text when the case of ASCII
/// letters is ignored; it fails when none does. Taken on trust from `log`.
#[verifier::external_body]
fn parse_level_filter(text: &str) -> (parsed: Option<LevelFilter>)
    ensures
        parsed == level_filter_named(text@),
{
    match text.parse::<log::LevelFilter>() {
        Ok(log::LevelFilter::Off) => Some(LevelFilter::Off),
        Ok(log::LevelFilter::Error) => Some(LevelFilter::Error),
        Ok(log::LevelFilter::Warn) => Some(LevelFilter::Warn),
        Ok(log::LevelFilter::Info) => Some(LevelFilter::Info),
        Ok(log::LevelFilter::Debug) => Some(LevelFilter::Debug),
        Ok(log::LevelFilter::Trace) => Some(LevelFilter::Trace),
        Err(_) => None,
    }
}

/// What `str::to_lowercase` makes of a text.
pub uninterp spec fn lowercased(text: Seq<char>) -> Seq<char>;

/// `str::to_lowercase` gives the lower-case form of the text as Unicode
/// defines it, which depends on the text alone. Nothing more is claimed of
/// it here.
pub assume_specification[ str::to_lowercase ](text: &str) -> (lowered: String)
    ensures
        lowered@ == lowercased(text@),
;

/// A threshold together with the warning that goes with it, if the text it
/// was read from named none.
pub struct LevelChoice {
    pub level: LevelFilter,
    pub warning: Option<String>,
}

/// The threshold used for a level text: the one it names, or `Info` when it
/// names none.
pub open spec fn level_or_info(text: Seq<char>) -> LevelFilter {
    match level_filter_named(text) {
        Some(level) => level,
        None => LevelFilter::Info,
    }
}

/// The warning for a level text that names no threshold.
pub open spec fn invalid_level_warning(text: Seq<char>) -> Seq<char> {
    "Invalid log level '"@ + text + "', using default level Info"@
}

/// The text that decides the threshold: the override where there is one,
/// else the configured level in lower case.
pub open spec fn deciding_text(env_override: Option<Seq<char>>, configured: Seq<char>) -> Seq<
    char,
> {
    match env_override {
        Some(text) => text,
        None => lowercased(configured),
    }
}

/// Reads a threshold from a level text.
///
/// A text that names a threshold gives that threshold and no warning. Any
/// other text gives `Info`, with one warning that quotes the text.
pub fn level_from_text(text: &str) -> (choice: LevelChoice)
    ensures
        choice.level == level_or_info(text@),
        level_filter_named(text@) is Some ==> choice.warning is None,
        level_filter_named(text@) is None ==> choice.level == LevelFilter::Info,
        level_filter_named(text@) is None ==> choice.warning is Some && choice.warning->0@
            == invalid_level_warning(text@),
{
    match parse_level_filter(text) {
        Some(level) => LevelChoice { level, warning: None },
        None => {
            let mut warning = "Invalid log level '".to_owned();
            warning.append(text);
            warning.append("', using default level Info");
            LevelChoice { level: LevelFilter::Info, warning: Some(warning) }
        },
    }
}

/// Settles the threshold for a configured level and an override that may
/// have come from the environment.
///
/// The override decides where there is one; otherwise the configured level
/// does, in lower case. The deciding text is then read as `level_from_text`
/// reads it.
pub fn resolve_level(env_override: Option<&str>, configured: &str) -> (choice: LevelChoice)
    ensures
        ({
            let text = deciding_text(str_of(env_override), configured@);
            &&& choice.level == level_or_info(text)
            &&& level_filter_named(text) is Some ==> choice.warning is None
            &&& level_filter_named(text) is None ==> choice.warning is Some && choice.warning->0@
                == invalid_level_warning(text)
        }),
{
    match env_override {
        Some(given) => level_from_text(given),
        None => {
            let lowered = configured.to_lowercase();
            level_from_text(lowered.as_str())
        },
    }
}

} // verus!
