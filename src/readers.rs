//! The sources of log lines, as values: what each needs to be opened.
use vstd::prelude::*;
use vstd::string::*;

use crate::dal_config::{Config, FileReaderInfo};

verus! {

/// Log lines from a file, read synchronously.
#[derive(Debug, Clone, PartialEq, Eq)]
pub struct Quake3LogFileSyncReader {
    pub config: Config,
    pub params: FileReaderInfo,
}

impl Quake3LogFileSyncReader {
    pub fn new(config: Config, params: FileReaderInfo) -> (r: Quake3LogFileSyncReader)
        ensures
            r.config == config,
            r.params == params,
    {
        Quake3LogFileSyncReader { config, params }
    }
}

/// Log lines from the standard input.
#[derive(Debug, Clone, Copy, PartialEq, Eq)]
pub struct Quake3LogFileStdinReader {
    pub config: Config,
}

impl Quake3LogFileStdinReader {
    pub fn new(config: Config) -> (r: Quake3LogFileStdinReader)
        ensures
            r.config == config,
    {
        Quake3LogFileStdinReader { config }
    }
}

/// Log lines from an already open reader, named `source_name` in diagnostics.
#[derive(Debug, Clone, PartialEq, Eq)]
pub struct Quake3LogSyncReader {
    pub config: Config,
    pub source_name: String,
}

impl Quake3LogSyncReader {
    pub fn new(config: Config, source_name: &str) -> (r: Quake3LogSyncReader)
        ensures
            r.config == config,
            r.source_name@ == source_name@,
    {
        Quake3LogSyncReader { config, source_name: String::from_str(source_name) }
    }
}

} // verus!
