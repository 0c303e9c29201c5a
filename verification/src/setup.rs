//! What setting up the logger comes to, before anything is installed: the
//! formatter, the thresholds, and the warning for a level that names none.

use crate::config::LoggerBuilder;
use crate::filter::FilterPlan;
use crate::level::{
    deciding_text, invalid_level_warning, level_filter_named, level_or_info, resolve_level,
};
use crate::line::LineFormatter;
use crate::text::str_of;
use vstd::prelude::*;

verus! {

/// Everything the logging facility is to be set up with.
///
/// `warning` is there when the level named no threshold. It is meant for
/// the error stream, once, before the logger is installed.
#[derive(Debug)]
pub struct LoggerPlan {
    pub formatter: LineFormatter,
    pub filters: FilterPlan,
    pub warning: Option<String>,
}

/// Works out how the logger is to be set up.
///
/// The level is read from `env_override` where the environment gave one,
/// else from the configured level in lower case. A text that names no
/// threshold counts as `Info` and leaves a warning that quotes it. With
/// `only_project_logs` the level holds for the targets of the project and
/// every other target is off; without it the level holds for all targets.
pub fn plan_logger(config: LoggerBuilder, project_name: &str, env_override: Option<&str>) -> (plan:
    LoggerPlan)
    ensures
        plan.formatter.preset == config.preset,
        plan.formatter.path_depth == config.path_depth,
        plan.formatter.time_format@ == config.time_format@,
        plan.formatter.project_name@ == project_name@,
        ({
            let text = deciding_text(str_of(env_override), config.level@);
            &&& plan.filters == FilterPlan::planned(config.only_project_logs, level_or_info(text))
            &&& level_filter_named(text) is Some ==> plan.warning is None
            &&& level_filter_named(text) is None ==> plan.warning is Some && plan.warning->0@
                == invalid_level_warning(text)
        }),
{
    let choice = resolve_level(env_override, config.level.as_str());
    let filters = FilterPlan::new(config.only_project_logs, choice.level);
    let formatter = LineFormatter::new(&config, project_name);
    LoggerPlan { formatter, filters, warning: choice.warning }
}

} // verus!
