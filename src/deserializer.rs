//! Parsing of time-stamped server log lines (hours of up to three digits) into
//! [Quake3Events].
use vstd::prelude::*;
use vstd::string::*;

pub use crate::deserializer_logs::{EventParsingError, LogParsingError};
use crate::deserializer_logs::{from_parts, from_parts_spec, FullEventView, LineErrorView, Quake3FullEvents};
use crate::line_shape::{line_parts, line_parts_exec};

verus! {

/// The server events, with all that a log line tells of them.
#[derive(Debug, Clone, PartialEq, Eq)]
pub enum Quake3Events {
    InitGame { frag_limit: Option<u32>, capture_limit: Option<u32>, time_limit_min: Option<u32> },
    ClientConnect { id: u32 },
    ClientUserinfoChanged { id: u32, name: String },
    ClientBegin { id: u32 },
    ClientDisconnect { id: u32 },
    Item,
    Say,
    Kill {
        killer_id: u32,
        victim_id: u32,
        reason_id: u32,
        killer_name: String,
        victim_name: String,
        reason_name: String,
    },
    Exit,
    CaptureTheFlagResults { red: u32, blue: u32 },
    Score { frags: i32, id: u32, name: String },
    ShutdownGame,
    Comment,
}

impl View for Quake3Events {
    type V = FullEventView;

    open spec fn view(&self) -> FullEventView {
        match self {
            Quake3Events::InitGame { frag_limit, capture_limit, time_limit_min } =>
                FullEventView::InitGame { frag_limit: *frag_limit, capture_limit: *capture_limit, time_limit_min: *time_limit_min },
            Quake3Events::ClientConnect { id } => FullEventView::ClientConnect { id: *id },
            Quake3Events::ClientUserinfoChanged { id, name } => FullEventView::ClientUserinfoChanged { id: *id, name: name@ },
            Quake3Events::ClientBegin { id } => FullEventView::ClientBegin { id: *id },
            Quake3Events::ClientDisconnect { id } => FullEventView::ClientDisconnect { id: *id },
            Quake3Events::Item => FullEventView::Item,
            Quake3Events::Say => FullEventView::Say,
            Quake3Events::Kill { killer_id, victim_id, reason_id, killer_name, victim_name, reason_name } =>
                FullEventView::Kill {
                    killer_id: *killer_id,
                    victim_id: *victim_id,
                    reason_id: *reason_id,
                    killer_name: killer_name@,
                    victim_name: victim_name@,
                    reason_name: reason_name@,
                },
            Quake3Events::Exit => FullEventView::Exit,
            Quake3Events::CaptureTheFlagResults { red, blue } => FullEventView::CaptureTheFlagResults { red: *red, blue: *blue },
            Quake3Events::Score { frags, id, name } => FullEventView::Score { frags: *frags, id: *id, name: name@ },
            Quake3Events::ShutdownGame => FullEventView::ShutdownGame,
            Quake3Events::Comment => FullEventView::Comment,
        }
    }
}

fn from_full(e: Quake3FullEvents) -> (r: Quake3Events)
    ensures
        r@ == e@,
{
    match e {
        Quake3FullEvents::InitGame { frag_limit, capture_limit, time_limit_min } =>
            Quake3Events::InitGame { frag_limit, capture_limit, time_limit_min },
        Quake3FullEvents::ClientConnect { id } => Quake3Events::ClientConnect { id },
        Quake3FullEvents::ClientUserinfoChanged { id, name } => Quake3Events::ClientUserinfoChanged { id, name },
        Quake3FullEvents::ClientBegin { id } => Quake3Events::ClientBegin { id },
        Quake3FullEvents::ClientDisconnect { id } => Quake3Events::ClientDisconnect { id },
        Quake3FullEvents::Item => Quake3Events::Item,
        Quake3FullEvents::Say => Quake3Events::Say,
        Quake3FullEvents::Kill { killer_id, victim_id, reason_id, killer_name, victim_name, reason_name } =>
            Quake3Events::Kill { killer_id, victim_id, reason_id, killer_name, victim_name, reason_name },
        Quake3FullEvents::Exit => Quake3Events::Exit,
        Quake3FullEvents::CaptureTheFlagResults { red, blue } => Quake3Events::CaptureTheFlagResults { red, blue },
        Quake3FullEvents::Score { frags, id, name } => Quake3Events::Score { frags, id, name },
        Quake3FullEvents::ShutdownGame => Quake3Events::ShutdownGame,
        Quake3FullEvents::Comment => Quake3Events::Comment,
    }
}

/// A whole line: empty, or time-stamped with an hour of up to three digits and
/// then either a comment (an event name starting with `-`) or an event.
pub open spec fn parse_stamped_line_spec(line: Seq<char>) -> Result<FullEventView, LineErrorView> {
    if line.len() == 0 {
        Err(LineErrorView::EmptyLine)
    } else {
        match line_parts(line, 3) {
            None => Err(LineErrorView::UnrecognizedLineFormat),
            Some((name, data)) => if name.len() > 0 && name[0] == '-' {
                Ok(FullEventView::Comment)
            } else {
                match from_parts_spec(name, data) {
                    Ok(e) => Ok(e),
                    Err(e) => Err(LineErrorView::EventParsingError { event_name: name, event_parsing_error: e }),
                }
            },
        }
    }
}

pub open spec fn stamped_result_view(r: Result<Quake3Events, LogParsingError>) -> Result<FullEventView, LineErrorView> {
    match r {
        Ok(e) => Ok(e@),
        Err(e) => Err(e@),
    }
}

/// Parses one time-stamped log line.
pub fn deserialize_log_line(log_line: &str) -> (r: Result<Quake3Events, LogParsingError>)
    ensures
        stamped_result_view(r) == parse_stamped_line_spec(log_line@),
{
    if log_line.unicode_len() == 0 {
        return Err(LogParsingError::EmptyLine);
    }
    let (event_name, data) = match line_parts_exec(log_line, 3) {
        Some(x) => x,
        None => {
            return Err(LogParsingError::UnrecognizedLineFormat);
        },
    };
    if event_name.unicode_len() > 0 && event_name.get_char(0) == '-' {
        return Ok(Quake3Events::Comment);
    }
    match from_parts(event_name, data) {
        Ok(e) => Ok(from_full(e)),
        Err(e) => Err(LogParsingError::EventParsingError { event_name: String::from_str(event_name), event_parsing_error: e }),
    }
}

} // verus!
