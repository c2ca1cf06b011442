//! The three switches of the summarization, without a selection of analyses.
use vstd::prelude::*;

verus! {

/// Diagnostics and strictness of a run.
#[derive(Debug, Clone, Copy, PartialEq, Eq, Structural)]
pub struct Config {
    /// Report feed errors as diagnostics.
    pub log_issues: bool,
    /// Stop at the first feed error.
    pub stop_on_feed_errors: bool,
    /// Treat violations of the event model as fatal.
    pub stop_on_event_model_violations: bool,
}

impl Default for Config {
    fn default() -> (r: Config)
        ensures
            !r.log_issues,
            !r.stop_on_feed_errors,
            !r.stop_on_event_model_violations,
    {
        Config { log_issues: false, stop_on_feed_errors: false, stop_on_event_model_violations: false }
    }
}

/// The analyses this configuration knows of.
#[derive(Debug, Clone, Copy, PartialEq, Eq, Structural)]
pub enum LogAnalyserOperations {
    Kills,
    PlayerIdsAndNickNamesResolutions,
    GameReportedScore,
}

} // verus!
