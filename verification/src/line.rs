//! One record to one line of text.
//!
//! A line is put together from six pieces (time, level, thread, target,
//! source path and line number) and the message. The pieces are first made
//! as plain text, then handed to `colored`, then laid out as the preset
//! asks. The message is left as it is and nothing is added after it.

use crate::config::{LoggerBuilder, LoggerPreset};
use crate::filter::{first_party, is_first_party};
use crate::level::Level;
use crate::path::{get_project_relative_path, lemma_single_component_path, relative_path};
use crate::style::{apply, shows, Color, Paint};
use crate::text::{decimal, decimal_text, same_text, str_of, text_of};
use vstd::prelude::*;
use vstd::string::StringExecFns;

verus! {

/// What the formatter reads of a record.
#[derive(Debug)]
pub struct LogRecord {
    pub level: Level,
    pub target: String,
    pub file: Option<String>,
    pub line: Option<u32>,
    pub message: String,
}

/// The pieces of a line, each as text.
#[derive(Debug)]
pub struct Pieces {
    pub timestamp: String,
    pub level: String,
    pub thread: String,
    pub target: String,
    pub path: String,
    pub line: String,
}

/// The pieces of a line, each as a sequence of characters.
pub struct PiecesView {
    pub timestamp: Seq<char>,
    pub level: Seq<char>,
    pub thread: Seq<char>,
    pub target: Seq<char>,
    pub path: Seq<char>,
    pub line: Seq<char>,
}

impl View for Pieces {
    type V = PiecesView;

    open spec fn view(&self) -> PiecesView {
        PiecesView {
            timestamp: self.timestamp@,
            level: self.level@,
            thread: self.thread@,
            target: self.target@,
            path: self.path@,
            line: self.line@,
        }
    }
}

/// What stands for a name or a path that a record does not carry.
pub open spec fn unknown() -> Seq<char> {
    "unknown"@
}

/// The thread as it is shown: by its name, or as `unknown` without one.
pub open spec fn thread_text(name: Option<Seq<char>>) -> Seq<char> {
    match name {
        Some(given) => given,
        None => unknown(),
    }
}

/// The source path as it is shown: the record's file relative to the source
/// root and within the depth limit, or `unknown` where the record names no
/// file.
pub open spec fn path_text(file: Option<Seq<char>>, depth: nat) -> Seq<char> {
    match file {
        Some(given) => relative_path(given, depth),
        None => unknown(),
    }
}

/// The line number as it is shown: in decimal, `0` where the record has
/// none.
pub open spec fn line_text(line: Option<u32>) -> Seq<char> {
    match line {
        Some(number) => decimal(number as nat),
        None => "0"@,
    }
}

/// The plain pieces for a record, a thread name and a time.
pub open spec fn plain_pieces(
    record: LogRecord,
    thread_name: Option<Seq<char>>,
    timestamp: Seq<char>,
    depth: nat,
) -> PiecesView {
    PiecesView {
        timestamp,
        level: record.level.label_text(),
        thread: thread_text(thread_name),
        target: record.target@,
        path: path_text(text_of(record.file), depth),
        line: line_text(record.line),
    }
}

/// The paint of a level's label. Every level has a colour of its own, all in
/// bold.
pub open spec fn level_paint(level: Level) -> Paint {
    match level {
        Level::Error => Paint { color: Color::Red, bold: true },
        Level::Warn => Paint { color: Color::Yellow, bold: true },
        Level::Info => Paint { color: Color::Green, bold: true },
        Level::Debug => Paint { color: Color::Blue, bold: true },
        Level::Trace => Paint { color: Color::Magenta, bold: true },
    }
}

/// No two levels share a paint.
pub proof fn lemma_levels_are_painted_apart(first: Level, second: Level)
    requires
        first != second,
    ensures
        level_paint(first) != level_paint(second),
{
}

/// The paint of a thread's label: one for the thread called `main`, another
/// for every other thread.
pub open spec fn thread_paint(label: Seq<char>) -> Paint {
    if label == "main"@ {
        Paint { color: Color::BrightGreen, bold: false }
    } else {
        Paint { color: Color::BrightBlue, bold: false }
    }
}

/// The paint of the time.
pub open spec fn time_paint() -> Paint {
    Paint { color: Color::Cyan, bold: false }
}

/// The paint of target, source path and line number.
pub open spec fn place_paint() -> Paint {
    Paint { color: Color::Yellow, bold: false }
}

/// Whether `shown` is what may come back when each of the `plain` pieces is
/// handed to `colored` with the paint that belongs to it.
pub open spec fn paints(shown: PiecesView, plain: PiecesView, level: Level) -> bool {
    &&& shows(shown.timestamp, plain.timestamp, time_paint())
    &&& shows(shown.level, plain.level, level_paint(level))
    &&& shows(shown.thread, plain.thread, thread_paint(plain.thread))
    &&& shows(shown.target, plain.target, place_paint())
    &&& shows(shown.path, plain.path, place_paint())
    &&& shows(shown.line, plain.line, place_paint())
}

/// Where a record came from: the source path alone for a target of the
/// project, and for any other the target in square brackets, a blank and the
/// source path.
pub open spec fn qualifier(own: bool, pieces: PiecesView) -> Seq<char> {
    if own {
        pieces.path
    } else {
        "["@ + pieces.target + "] "@ + pieces.path
    }
}

/// The line that a preset makes of the pieces and the message.
///
/// - `FULL`: `<time> <level> [<thread>] [<qualifier>:<line>] <message>`
/// - `THREAD`: `<time> <level> [<thread>] <message>`
/// - `SIMPLE`: `[ <time> <level>] <message>`
pub open spec fn layout(
    preset: LoggerPreset,
    pieces: PiecesView,
    own: bool,
    message: Seq<char>,
) -> Seq<char> {
    match preset {
        LoggerPreset::FULL => pieces.timestamp + " "@ + pieces.level + " ["@ + pieces.thread
            + "] ["@ + qualifier(own, pieces) + ":"@ + pieces.line + "] "@ + message,
        LoggerPreset::THREAD => pieces.timestamp + " "@ + pieces.level + " ["@ + pieces.thread
            + "] "@ + message,
        LoggerPreset::SIMPLE => "[ "@ + pieces.timestamp + " "@ + pieces.level + "] "@ + message,
    }
}

/// The `SIMPLE` line is made of time, level and message alone: two sets of
/// pieces that agree on time and level give the same line, whatever thread,
/// target, source path and line number each of them holds, and whether the
/// target is the project's own or not.
pub proof fn lemma_simple_line_leaves_out_thread_and_place(
    first: PiecesView,
    first_own: bool,
    second: PiecesView,
    second_own: bool,
    message: Seq<char>,
)
    requires
        first.timestamp == second.timestamp,
        first.level == second.level,
    ensures
        layout(LoggerPreset::SIMPLE, first, first_own, message) == layout(
            LoggerPreset::SIMPLE,
            second,
            second_own,
            message,
        ),
{
}

/// The `THREAD` line is made of time, level, thread and message alone.
pub proof fn lemma_thread_line_leaves_out_place(
    first: PiecesView,
    first_own: bool,
    second: PiecesView,
    second_own: bool,
    message: Seq<char>,
)
    requires
        first.timestamp == second.timestamp,
        first.level == second.level,
        first.thread == second.thread,
    ensures
        layout(LoggerPreset::THREAD, first, first_own, message) == layout(
            LoggerPreset::THREAD,
            second,
            second_own,
            message,
        ),
{
}

/// The word `unknown` in place of a path is shown as it is, whatever the
/// depth limit.
pub proof fn lemma_unknown_is_shown_as_it_is(depth: nat)
    ensures
        relative_path(unknown(), depth) == unknown(),
{
    reveal_strlit("unknown");
    reveal_strlit("src");
    lemma_single_component_path(unknown(), depth);
}

/// The thread as it is shown.
pub fn thread_label(name: Option<&str>) -> (label: String)
    ensures
        label@ == thread_text(str_of(name)),
        name is None ==> label@ == "unknown"@,
{
    match name {
        Some(given) => given.to_owned(),
        None => "unknown".to_owned(),
    }
}

/// The source path as it is shown. Where the record names no file, the word
/// `unknown` takes the file's place.
pub fn shown_path(file: Option<&str>, depth: usize) -> (shown: String)
    ensures
        shown@ == path_text(str_of(file), depth as nat),
        file is None ==> shown@ == "unknown"@,
{
    proof {
        lemma_unknown_is_shown_as_it_is(depth as nat);
    }
    match file {
        Some(given) => get_project_relative_path(given, depth),
        None => get_project_relative_path("unknown", depth),
    }
}

/// The line number as it is shown.
pub fn shown_line(line: Option<u32>) -> (shown: String)
    ensures
        shown@ == line_text(line),
        line is None ==> shown@ == "0"@,
{
    proof {
        reveal_strlit("0");
    }
    match line {
        Some(number) => decimal_text(number),
        None => decimal_text(0),
    }
}

/// The paint of a level's label.
pub fn paint_for_level(level: Level) -> (paint: Paint)
    ensures
        paint == level_paint(level),
{
    match level {
        Level::Error => Paint { color: Color::Red, bold: true },
        Level::Warn => Paint { color: Color::Yellow, bold: true },
        Level::Info => Paint { color: Color::Green, bold: true },
        Level::Debug => Paint { color: Color::Blue, bold: true },
        Level::Trace => Paint { color: Color::Magenta, bold: true },
    }
}

/// The paint of a thread's label.
pub fn paint_for_thread(label: &str) -> (paint: Paint)
    ensures
        paint == thread_paint(label@),
{
    if same_text(label, "main") {
        Paint { color: Color::BrightGreen, bold: false }
    } else {
        Paint { color: Color::BrightBlue, bold: false }
    }
}

/// Where a record came from, as it stands in a `FULL` line.
pub fn target_qualifier(own: bool, pieces: &Pieces) -> (shown: String)
    ensures
        shown@ == qualifier(own, pieces@),
{
    if own {
        pieces.path.clone()
    } else {
        let mut shown = "[".to_owned();
        shown.append(pieces.target.as_str());
        shown.append("] ");
        shown.append(pieces.path.as_str());
        shown
    }
}

/// Lays the pieces and the message out as the preset asks.
pub fn assemble(preset: LoggerPreset, pieces: &Pieces, own: bool, message: &str) -> (line: String)
    ensures
        line@ == layout(preset, pieces@, own, message@),
{
    match preset {
        LoggerPreset::FULL => {
            let place = target_qualifier(own, pieces);
            let mut line = pieces.timestamp.clone();
            line.append(" ");
            line.append(pieces.level.as_str());
            line.append(" [");
            line.append(pieces.thread.as_str());
            line.append("] [");
            line.append(place.as_str());
            line.append(":");
            line.append(pieces.line.as_str());
            line.append("] ");
            line.append(message);
            line
        },
        LoggerPreset::THREAD => {
            let mut line = pieces.timestamp.clone();
            line.append(" ");
            line.append(pieces.level.as_str());
            line.append(" [");
            line.append(pieces.thread.as_str());
            line.append("] ");
            line.append(message);
            line
        },
        LoggerPreset::SIMPLE => {
            let mut line = "[ ".to_owned();
            line.append(pieces.timestamp.as_str());
            line.append(" ");
            line.append(pieces.level.as_str());
            line.append("] ");
            line.append(message);
            line
        },
    }
}

/// Hands each piece to `colored` with the paint that belongs to it.
pub fn paint_pieces(plain: &Pieces, level: Level) -> (shown: Pieces)
    ensures
        paints(shown@, plain@, level),
{
    Pieces {
        timestamp: apply(plain.timestamp.as_str(), Paint { color: Color::Cyan, bold: false }),
        level: apply(plain.level.as_str(), paint_for_level(level)),
        thread: apply(plain.thread.as_str(), paint_for_thread(plain.thread.as_str())),
        target: apply(plain.target.as_str(), Paint { color: Color::Yellow, bold: false }),
        path: apply(plain.path.as_str(), Paint { color: Color::Yellow, bold: false }),
        line: apply(plain.line.as_str(), Paint { color: Color::Yellow, bold: false }),
    }
}

/// A moment of local time: the seconds since the start of 1970 in UTC, the
/// nanoseconds into that second, and how many seconds the local time is
/// ahead of UTC.
#[derive(Clone, Copy, Debug, PartialEq, Eq, Structural)]
pub struct Moment {
    pub seconds: i64,
    pub nanos: u32,
    pub offset_seconds: i32,
}

/// What `chrono` writes for a moment under a time pattern; nothing where it
/// cannot write it.
pub uninterp spec fn time_written(
    seconds: i64,
    nanos: u32,
    offset_seconds: i32,
    pattern: Seq<char>,
) -> Option<Seq<char>>;

/// `chrono::Local::now`, read off as a moment through `DateTime::timestamp`,
/// `DateTime::timestamp_subsec_nanos` and `FixedOffset::local_minus_utc`.
/// The moment depends on the clock and the time zone of the machine, so
/// nothing is claimed of it.
#[verifier::external_body]
fn local_moment() -> (now: Moment) {
    let now = chrono::Local::now();
    Moment {
        seconds: now.timestamp(),
        nanos: now.timestamp_subsec_nanos(),
        offset_seconds: now.offset().local_minus_utc(),
    }
}

/// `DateTime::format` with the pattern and `DelayedFormat::write_to` into a
/// fresh string, on the date and time that `DateTime::from_timestamp` and
/// `FixedOffset::east_opt` make of the moment. What is written depends on
/// the moment and the pattern alone. There is no text where the numbers are
/// out of `chrono`'s range or the pattern is one that it cannot read. Taken
/// on trust from `chrono`.
#[verifier::external_body]
fn write_moment(moment: Moment, pattern: &str) -> (stamp: Option<String>)
    ensures
        text_of(stamp) == time_written(
            moment.seconds,
            moment.nanos,
            moment.offset_seconds,
            pattern@,
        ),
{
    let zone = chrono::FixedOffset::east_opt(moment.offset_seconds)?;
    let utc = chrono::DateTime::from_timestamp(moment.seconds, moment.nanos)?;
    let mut stamp = String::new();
    match utc.with_timezone(&zone).format(pattern).write_to(&mut stamp) {
        Ok(()) => Some(stamp),
        Err(_) => None,
    }
}

/// What a formatter keeps of the configuration, by value.
#[derive(Debug)]
pub struct LineFormatter {
    pub preset: LoggerPreset,
    pub path_depth: usize,
    pub time_format: String,
    pub project_name: String,
}

impl LineFormatter {
    /// Whether `line` is a line for the record at the given time: the plain
    /// pieces of the record, each as `colored` may give it back, laid out as
    /// the preset asks.
    pub open spec fn renders(
        self,
        line: Seq<char>,
        record: LogRecord,
        thread_name: Option<Seq<char>>,
        timestamp: Seq<char>,
    ) -> bool {
        exists|shown: PiecesView|
            {
                &&& #[trigger] paints(
                    shown,
                    plain_pieces(record, thread_name, timestamp, self.path_depth as nat),
                    record.level,
                )
                &&& line == layout(
                    self.preset,
                    shown,
                    first_party(record.target@, self.project_name@),
                    record.message@,
                )
            }
    }

    /// Whether `line` is what the formatter gives for the record at a
    /// moment: the line for the record at the time that `chrono` writes for
    /// the moment under the formatter's time pattern, and no line where
    /// `chrono` cannot write it.
    pub open spec fn renders_at(
        self,
        line: Option<Seq<char>>,
        record: LogRecord,
        thread_name: Option<Seq<char>>,
        moment: Moment,
    ) -> bool {
        match time_written(
            moment.seconds,
            moment.nanos,
            moment.offset_seconds,
            self.time_format@,
        ) {
            Some(timestamp) => line is Some && self.renders(
                line->0,
                record,
                thread_name,
                timestamp,
            ),
            None => line is None,
        }
    }

    /// A formatter for a configuration, in a project of the given name.
    pub fn new(config: &LoggerBuilder, project_name: &str) -> (formatter: LineFormatter)
        ensures
            formatter.preset == config.preset,
            formatter.path_depth == config.path_depth,
            formatter.time_format@ == config.time_format@,
            formatter.project_name@ == project_name@,
    {
        LineFormatter {
            preset: config.preset,
            path_depth: config.path_depth,
            time_format: config.time_format.clone(),
            project_name: project_name.to_owned(),
        }
    }

    /// The plain pieces for a record, the name of the thread that emits it,
    /// and the time as text.
    pub fn pieces(&self, record: &LogRecord, thread_name: Option<&str>, timestamp: &str) -> (plain:
        Pieces)
        ensures
            plain@ == plain_pieces(
                *record,
                str_of(thread_name),
                timestamp@,
                self.path_depth as nat,
            ),
            record.file is None ==> plain.path@ == "unknown"@,
            record.line is None ==> plain.line@ == "0"@,
            thread_name is None ==> plain.thread@ == "unknown"@,
    {
        let path = match &record.file {
            Some(given) => shown_path(Some(given.as_str()), self.path_depth),
            None => shown_path(None, self.path_depth),
        };
        Pieces {
            timestamp: timestamp.to_owned(),
            level: record.level.label().to_owned(),
            thread: thread_label(thread_name),
            target: record.target.clone(),
            path,
            line: shown_line(record.line),
        }
    }

    /// The line for a record at a time that the caller gives as text.
    pub fn format_at(
        &self,
        record: &LogRecord,
        thread_name: Option<&str>,
        timestamp: &str,
    ) -> (line: String)
        ensures
            self.renders(line@, *record, str_of(thread_name), timestamp@),
    {
        let plain = self.pieces(record, thread_name, timestamp);
        let shown = paint_pieces(&plain, record.level);
        let own = is_first_party(record.target.as_str(), self.project_name.as_str());
        assemble(self.preset, &shown, own, record.message.as_str())
    }

    /// The line for a record at a time that may be missing: with a time it
    /// is the line of `format_at`, and without one there is no line.
    pub fn format_with_time(
        &self,
        record: &LogRecord,
        thread_name: Option<&str>,
        timestamp: Option<String>,
    ) -> (line: Option<String>)
        ensures
            timestamp is None <==> line is None,
            timestamp is Some ==> self.renders(
                line->0@,
                *record,
                str_of(thread_name),
                timestamp->0@,
            ),
    {
        match timestamp {
            Some(given) => Some(self.format_at(record, thread_name, given.as_str())),
            None => None,
        }
    }

    /// The line for a record at a given moment, written as the formatter's
    /// time pattern asks. There is no line where `chrono` cannot write the
    /// moment with that pattern.
    pub fn format_at_moment(
        &self,
        record: &LogRecord,
        thread_name: Option<&str>,
        moment: Moment,
    ) -> (line: Option<String>)
        ensures
            self.renders_at(text_of(line), *record, str_of(thread_name), moment),
    {
        let timestamp = write_moment(moment, self.time_format.as_str());
        self.format_with_time(record, thread_name, timestamp)
    }

    /// The line for a record at the present local time, written as the
    /// formatter's time pattern asks. There is no line where `chrono` cannot
    /// write the time with that pattern.
    pub fn format(&self, record: &LogRecord, thread_name: Option<&str>) -> (line: Option<String>)
        ensures
            exists|moment: Moment| #[trigger]
                self.renders_at(text_of(line), *record, str_of(thread_name), moment),
    {
        let now = local_moment();
        self.format_at_moment(record, thread_name, now)
    }
}

} // verus!
