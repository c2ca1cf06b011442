//! The configuration of the rendering of summaries.
use vstd::prelude::*;

verus! {

/// How errors among the items are handled while rendering.
#[derive(Debug, Clone, Copy, PartialEq, Eq, Structural)]
pub struct Config {
    /// Stop at the first item that is an error.
    pub stop_on_errors: bool,
    /// Report each item that is an error.
    pub log_errors: bool,
}

impl Default for Config {
    fn default() -> (r: Config)
        ensures
            !r.stop_on_errors,
            r.log_errors,
    {
        Config { stop_on_errors: false, log_errors: true }
    }
}

} // verus!
