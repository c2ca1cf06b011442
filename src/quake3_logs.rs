//! The events of a server log, in the lighter shape that time-stamped parsing
//! with two-digit hours yields.
use vstd::prelude::*;

verus! {

/// The events of a log line that this shape keeps.
#[derive(Debug, Clone, PartialEq, Eq)]
pub enum LogEvent {
    /// A match started, with its limits where the line gives them.
    InitGame { frag_limit: Option<u32>, capture_limit: Option<u32>, time_limit_min: Option<u32> },
    /// A player connected.
    ClientConnect { id: u32 },
    /// A player's information changed.
    ClientUserinfoChanged { id: u32, name: String },
    /// A player started playing.
    ClientBegin { id: u32 },
    /// A player left.
    ClientDisconnect { id: u32 },
    Item,
    Kill,
    Exit,
    CaptureTheFlagResults { red: u32, blue: u32 },
    Score { frags: u32, id: u32, name: String },
    ShutdownGame,
    Comment,
}

/// The mathematical model of a [LogEvent].
pub enum LogEventView {
    InitGame { frag_limit: Option<u32>, capture_limit: Option<u32>, time_limit_min: Option<u32> },
    ClientConnect { id: u32 },
    ClientUserinfoChanged { id: u32, name: Seq<char> },
    ClientBegin { id: u32 },
    ClientDisconnect { id: u32 },
    Item,
    Kill,
    Exit,
    CaptureTheFlagResults { red: u32, blue: u32 },
    Score { frags: u32, id: u32, name: Seq<char> },
    ShutdownGame,
    Comment,
}

impl View for LogEvent {
    type V = LogEventView;

    open spec fn view(&self) -> LogEventView {
        match self {
            LogEvent::InitGame { frag_limit, capture_limit, time_limit_min } =>
                LogEventView::InitGame { frag_limit: *frag_limit, capture_limit: *capture_limit, time_limit_min: *time_limit_min },
            LogEvent::ClientConnect { id } => LogEventView::ClientConnect { id: *id },
            LogEvent::ClientUserinfoChanged { id, name } => LogEventView::ClientUserinfoChanged { id: *id, name: name@ },
            LogEvent::ClientBegin { id } => LogEventView::ClientBegin { id: *id },
            LogEvent::ClientDisconnect { id } => LogEventView::ClientDisconnect { id: *id },
            LogEvent::Item => LogEventView::Item,
            LogEvent::Kill => LogEventView::Kill,
            LogEvent::Exit => LogEventView::Exit,
            LogEvent::CaptureTheFlagResults { red, blue } => LogEventView::CaptureTheFlagResults { red: *red, blue: *blue },
            LogEvent::Score { frags, id, name } => LogEventView::Score { frags: *frags, id: *id, name: name@ },
            LogEvent::ShutdownGame => LogEventView::ShutdownGame,
            LogEvent::Comment => LogEventView::Comment,
        }
    }
}

} // verus!
