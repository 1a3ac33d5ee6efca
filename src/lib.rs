//! Makes sure that every selected file ends with a line terminator.
//!
//! The library holds the decisions of the run: what to do with one file given
//! its last byte, how an inspection result becomes an outcome, how outcomes
//! are counted and reported, and how the configuration shapes the traversal.
//! The program around it performs the file-system work.
pub mod inspect;
pub mod report;
pub mod walk;

pub use inspect::{append_terminator, inspect, tail_of, LineEnding, Verdict, LINE_FEED};
pub use report::{header, on_entry, outcome_of, EntryStep, Kind, Outcome, Reporter, RunCounters, Stat, StatKind};
pub use walk::{build_walker, Config, ConfigError, Walker};
