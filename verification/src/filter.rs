//! Which records are let through: one threshold for every target, or one
//! for the project's own targets with everything else shut out.

use crate::level::{Level, LevelFilter};
use crate::text::starts_with;
use vstd::prelude::*;

verus! {

/// The thresholds handed to the logging facility.
///
/// `default_level` holds for every target. Where `project_level` is there, it
/// holds instead for the targets of the project itself.
#[derive(Clone, Copy, Debug, PartialEq, Eq, Structural)]
pub struct FilterPlan {
    pub default_level: LevelFilter,
    pub project_level: Option<LevelFilter>,
}

/// Whether a target belongs to the project: its text begins with the
/// project's name.
pub open spec fn first_party(target: Seq<char>, project_name: Seq<char>) -> bool {
    project_name.is_prefix_of(target)
}

/// Whether a target belongs to the project.
pub fn is_first_party(target: &str, project_name: &str) -> (own: bool)
    ensures
        own == first_party(target@, project_name@),
{
    starts_with(target, project_name)
}

impl FilterPlan {
    /// The thresholds for a level: with `only_project_logs` the level holds
    /// for the project's targets and everything else is off; without it the
    /// level holds for every target.
    pub open spec fn planned(only_project_logs: bool, level: LevelFilter) -> FilterPlan {
        if only_project_logs {
            FilterPlan { default_level: LevelFilter::Off, project_level: Some(level) }
        } else {
            FilterPlan { default_level: level, project_level: None }
        }
    }

    /// The threshold that holds for a target.
    pub open spec fn threshold_for(self, own: bool) -> LevelFilter {
        match self.project_level {
            Some(level) => if own {
                level
            } else {
                self.default_level
            },
            None => self.default_level,
        }
    }

    /// Whether a record of `level`, from a target that is the project's own
    /// or not, is let through.
    pub open spec fn lets_through(self, own: bool, level: Level) -> bool {
        self.threshold_for(own).lets_through(level)
    }

    /// Lays down the thresholds for a level.
    pub fn new(only_project_logs: bool, level: LevelFilter) -> (plan: FilterPlan)
        ensures
            plan == FilterPlan::planned(only_project_logs, level),
    {
        if only_project_logs {
            FilterPlan { default_level: LevelFilter::Off, project_level: Some(level) }
        } else {
            FilterPlan { default_level: level, project_level: None }
        }
    }

    /// Whether a record of `level` from `target` is let through, in a
    /// project of the given name.
    pub fn admits(&self, project_name: &str, target: &str, level: Level) -> (passes: bool)
        ensures
            passes == self.lets_through(first_party(target@, project_name@), level),
    {
        let threshold = match self.project_level {
            Some(own_level) => if is_first_party(target, project_name) {
                own_level
            } else {
                self.default_level
            },
            None => self.default_level,
        };
        threshold.allows(level)
    }
}

/// When only the project's records are wanted, a record from any other
/// target is shut out whatever its level, and a record of the project
/// passes exactly when it passes the level.
pub proof fn lemma_only_project_records_pass(threshold: LevelFilter, own: bool, level: Level)
    ensures
        !own ==> !FilterPlan::planned(true, threshold).lets_through(own, level),
        own ==> FilterPlan::planned(true, threshold).lets_through(own, level)
            == threshold.lets_through(level),
{
}

/// When records of every target are wanted, a record passes exactly when it
/// passes the level, whatever its target.
pub proof fn lemma_every_target_is_treated_alike(threshold: LevelFilter, own: bool, level: Level)
    ensures
        FilterPlan::planned(false, threshold).lets_through(own, level) == threshold.lets_through(
            level,
        ),
{
}

} // verus!
