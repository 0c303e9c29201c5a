//! A formatter for log lines, with the thresholds that go with it.
//!
//! A host fills in a [`LoggerBuilder`], and [`plan_logger`] turns it into a
//! [`LineFormatter`], a [`FilterPlan`] and, where the level named no
//! threshold, a warning. The formatter makes one line of text of each record.

pub mod config;
pub mod filter;
pub mod level;
pub mod line;
pub mod path;
pub mod setup;
pub mod style;
pub mod text;

pub use config::{LoggerBuilder, LoggerPreset};
pub use filter::FilterPlan;
pub use level::{Level, LevelFilter};
pub use line::{LineFormatter, LogRecord, Moment};
pub use path::get_project_relative_path;
pub use setup::{plan_logger, LoggerPlan};
