//! The configuration of a run of the pipeline.
use vstd::prelude::*;

verus! {

/// The optional and mandatory analyses a run may apply.
#[derive(Debug, Clone, Copy, PartialEq, Eq, Hash, Structural)]
pub enum EventAnalyserOperations {
    MeansOfDeath,
    Kills,
    PlayerIdsAndNickNamesResolutions,
    GameReportedScores,
}

/// What a run does; fixed for its whole length.
#[derive(Debug, Clone)]
pub struct Config {
    /// Report feed errors as diagnostics. The summaries do not depend on it.
    pub log_issues: bool,
    /// Declared for callers that stop on the first feed error; no stage reads it,
    /// and the summaries do not depend on it.
    pub stop_on_feed_errors: bool,
    /// Detect name discrepancies in frag events, and so end the item that holds one.
    pub stop_on_event_model_violations: bool,
    /// The analyses to apply, as a set: order and repetition do not matter.
    pub processor_pipeline: Vec<EventAnalyserOperations>,
}

impl Default for Config {
    /// No diagnostics, nothing fatal beyond the rules, and the kills analysis alone.
    fn default() -> (r: Config)
        ensures
            !r.log_issues,
            !r.stop_on_feed_errors,
            !r.stop_on_event_model_violations,
            r.processor_pipeline@ == seq![EventAnalyserOperations::Kills],
    {
        let mut ops: Vec<EventAnalyserOperations> = Vec::new();
        ops.push(EventAnalyserOperations::Kills);
        assert(ops@ =~= seq![EventAnalyserOperations::Kills]);
        Config {
            log_issues: false,
            stop_on_feed_errors: false,
            stop_on_event_model_violations: false,
            processor_pipeline: ops,
        }
    }
}

} // verus!
