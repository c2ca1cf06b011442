//! The configuration of the sources of raw events.
use vstd::prelude::*;

verus! {

/// How a source of raw events behaves.
#[derive(Debug, Clone, Copy, PartialEq, Eq, Structural)]
pub struct Config {
    /// Trace every event handed to the pipeline.
    pub debug: bool,
}

impl Default for Config {
    fn default() -> (r: Config)
        ensures
            !r.debug,
    {
        Config { debug: false }
    }
}

/// Where a log file is.
#[derive(Debug, Clone, PartialEq, Eq)]
pub struct FileReaderInfo {
    pub log_file_path: String,
}

/// The sources of raw events a run can read from.
#[derive(Debug, Clone, PartialEq, Eq)]
pub enum Quake3ServerEventsImplementations {
    /// Log lines from the standard input.
    StdinReader,
    /// Log lines from a file, read synchronously.
    SyncLogFileReader(FileReaderInfo),
    /// Log lines from a file, read asynchronously.
    AsyncLogFileReader(FileReaderInfo),
    /// Events from a running server.
    HttpRealtimeBinaryEventsReader,
}

} // verus!
