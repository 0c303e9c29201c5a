//! What a host chooses before the logger is set up.

use vstd::prelude::*;

verus! {

/// The layout of a line.
#[derive(Clone, Copy, Debug, PartialEq, Eq, Structural)]
pub enum LoggerPreset {
    /// Time, level, thread, where the record came from, message.
    FULL,
    /// Time, level, thread, message.
    THREAD,
    /// Time, level, message.
    SIMPLE,
}

/// Logger builder
///
/// # Parameters
/// - `level`: Log level, such as info, error, warn, debug, trace (default is `info`)
/// - `only_project_logs`: Whether to output only project logs, not external module logs
///   (default is `false`)
/// - `path_depth`: Path display depth, where `0` shows the whole path (default is `0`)
/// - `time_format`: Time format such as `%Y-%m-%d %H:%M:%S` (default is `%Y-%m-%d %H:%M:%S`)
/// - `preset`: Logger preset such as `FULL`, `THREAD`, `SIMPLE` (default is `FULL`)
///
/// Nothing is checked when a builder is made: a level that names no
/// threshold is dealt with when the logger is set up.
#[derive(Debug)]
pub struct LoggerBuilder {
    pub level: String,
    pub only_project_logs: bool,
    pub path_depth: usize,
    pub time_format: String,
    pub preset: LoggerPreset,
}

impl Default for LoggerBuilder {
    fn default() -> (config: Self)
        ensures
            config.level@ == "info"@,
            !config.only_project_logs,
            config.path_depth == 0,
            config.time_format@ == "%Y-%m-%d %H:%M:%S"@,
            config.preset == LoggerPreset::FULL,
    {
        LoggerBuilder {
            level: "info".to_owned(),
            only_project_logs: false,
            path_depth: 0,
            time_format: "%Y-%m-%d %H:%M:%S".to_owned(),
            preset: LoggerPreset::FULL,
        }
    }
}

} // verus!
