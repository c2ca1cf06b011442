//! Parsing of time-stamped server log lines (hours of up to two digits) into
//! [LogEvent].
use vstd::prelude::*;
use vstd::string::*;

pub use crate::deserializer_logs::{EventParsingError, LogParsingError};
use crate::deserializer_logs::{
    bad_format, client_split_text, client_values_text, event_result_view, number_from,
    opt_u32_of, red_from, red_spec, score_format_text, u32_of, unparseable, userinfo_from,
    userinfo_spec, wrap_text, EventErrorView, FullEventView, LineErrorView, Quake3FullEvents,
};
use crate::line_shape::{line_parts, line_parts_exec};
use crate::quake3_logs::{LogEvent, LogEventView};
use crate::text::{kv_get, kv_get_spec, nth_piece, nth_piece_exec, parse_u32, same_text, split_once, split_once_spec};

verus! {

/// The data of a `score` line, with frags that cannot be negative.
pub open spec fn unsigned_score_spec(data: Seq<char>) -> Result<LogEventView, EventErrorView> {
    match split_once_spec(data, " "@) {
        None => Err(bad_format(score_format_text(data))),
        Some((frags_value, rest)) => match u32_of(frags_value) {
            None => Err(unparseable("frags"@, frags_value)),
            Some(frags) => match nth_piece(rest, ": "@, 2) {
                None => Err(bad_format(client_values_text(rest))),
                Some(client_values) => match split_once_spec(client_values, " "@) {
                    None => Err(bad_format(client_split_text(client_values))),
                    Some((id_value, name)) => match u32_of(id_value) {
                        None => Err(unparseable("client_id"@, id_value)),
                        Some(id) => Ok(LogEventView::Score { frags, id, name }),
                    },
                },
            },
        },
    }
}

/// A player-information or team-score result in this lighter shape (the rules
/// that are reused here give no other event).
pub open spec fn lighter(r: Result<FullEventView, EventErrorView>) -> Result<LogEventView, EventErrorView> {
    match r {
        Ok(FullEventView::ClientUserinfoChanged { id, name }) => Ok(LogEventView::ClientUserinfoChanged { id, name }),
        Ok(FullEventView::CaptureTheFlagResults { red, blue }) => Ok(LogEventView::CaptureTheFlagResults { red, blue }),
        Ok(_) => Ok(LogEventView::Comment),
        Err(e) => Err(e),
    }
}

/// The event that a name and its data stand for; kills are kept without their
/// data and chat lines are not known.
pub open spec fn light_from_parts_spec(name: Seq<char>, data: Seq<char>) -> Result<LogEventView, EventErrorView> {
    if name == "InitGame"@ {
        Ok(LogEventView::InitGame {
            frag_limit: opt_u32_of(kv_get_spec(data, "fraglimit"@)),
            capture_limit: opt_u32_of(kv_get_spec(data, "capturelimit"@)),
            time_limit_min: opt_u32_of(kv_get_spec(data, "timelimit"@)),
        })
    } else if name == "ClientConnect"@ || name == "ClientBegin"@ || name == "ClientDisconnect"@ {
        match u32_of(data) {
            Some(id) => Ok(if name == "ClientConnect"@ {
                LogEventView::ClientConnect { id }
            } else if name == "ClientBegin"@ {
                LogEventView::ClientBegin { id }
            } else {
                LogEventView::ClientDisconnect { id }
            }),
            None => Err(unparseable("client id"@, data)),
        }
    } else if name == "ClientUserinfoChanged"@ {
        lighter(userinfo_spec(data))
    } else if name == "Item"@ {
        Ok(LogEventView::Item)
    } else if name == "Kill"@ {
        Ok(LogEventView::Kill)
    } else if name == "Exit"@ {
        Ok(LogEventView::Exit)
    } else if name == "red"@ {
        lighter(red_spec(data))
    } else if name == "score"@ {
        unsigned_score_spec(data)
    } else if name == "ShutdownGame"@ {
        Ok(LogEventView::ShutdownGame)
    } else {
        Err(EventErrorView::UnknownEventName)
    }
}

/// A whole line: empty, or time-stamped with an hour of up to two digits and
/// then either a comment (an event name starting with `-`) or an event.
pub open spec fn parse_light_line_spec(line: Seq<char>) -> Result<LogEventView, LineErrorView> {
    if line.len() == 0 {
        Err(LineErrorView::EmptyLine)
    } else {
        match line_parts(line, 2) {
            None => Err(LineErrorView::UnrecognizedLineFormat),
            Some((name, data)) => if name.len() > 0 && name[0] == '-' {
                Ok(LogEventView::Comment)
            } else {
                match light_from_parts_spec(name, data) {
                    Ok(e) => Ok(e),
                    Err(e) => Err(LineErrorView::EventParsingError { event_name: name, event_parsing_error: e }),
                }
            },
        }
    }
}

pub open spec fn light_event_view(r: Result<LogEvent, EventParsingError>) -> Result<LogEventView, EventErrorView> {
    match r {
        Ok(e) => Ok(e@),
        Err(e) => Err(e@),
    }
}

pub open spec fn light_line_view(r: Result<LogEvent, LogParsingError>) -> Result<LogEventView, LineErrorView> {
    match r {
        Ok(e) => Ok(e@),
        Err(e) => Err(e@),
    }
}

fn lighter_exec(r: Result<Quake3FullEvents, EventParsingError>) -> (out: Result<LogEvent, EventParsingError>)
    ensures
        light_event_view(out) == lighter(event_result_view(r)),
{
    match r {
        Ok(Quake3FullEvents::ClientUserinfoChanged { id, name }) => Ok(LogEvent::ClientUserinfoChanged { id, name }),
        Ok(Quake3FullEvents::CaptureTheFlagResults { red, blue }) => Ok(LogEvent::CaptureTheFlagResults { red, blue }),
        Ok(_) => Ok(LogEvent::Comment),
        Err(e) => Err(e),
    }
}

fn unsigned_score_from(data: &str) -> (r: Result<LogEvent, EventParsingError>)
    ensures
        light_event_view(r) == unsigned_score_spec(data@),
{
    let (frags_value, rest) = match split_once(data, " ") {
        Some(x) => x,
        None => {
            return Err(EventParsingError::UnknownDataFormat {
                description: wrap_text("event doesn't appear to be in the form 'score: n  ping: n  client: n name': log line: 'score:", data, "'"),
            });
        },
    };
    let frags = match parse_u32(frags_value) {
        Ok(v) => v,
        Err(_) => {
            return Err(EventParsingError::UnparseableNumber { key_name: "frags", observed_data: String::from_str(frags_value) });
        },
    };
    let client_values = match nth_piece_exec(rest, ": ", 2) {
        Some(x) => x,
        None => {
            return Err(EventParsingError::UnknownDataFormat {
                description: wrap_text("couldn't extract client values out of `data` -- '", rest, "'"),
            });
        },
    };
    let (id_value, name) = match split_once(client_values, " ") {
        Some(x) => x,
        None => {
            return Err(EventParsingError::UnknownDataFormat {
                description: wrap_text("couldn't split client id and name out of `client_values` -- '", client_values, "'"),
            });
        },
    };
    let id = match parse_u32(id_value) {
        Ok(v) => v,
        Err(_) => {
            return Err(EventParsingError::UnparseableNumber { key_name: "client_id", observed_data: String::from_str(id_value) });
        },
    };
    Ok(LogEvent::Score { frags, id, name: String::from_str(name) })
}

/// The event that `event_name` and its `data` stand for.
pub fn from_parts(event_name: &str, data: &str) -> (r: Result<LogEvent, EventParsingError>)
    ensures
        light_event_view(r) == light_from_parts_spec(event_name@, data@),
{
    if same_text(event_name, "InitGame") {
        Ok(LogEvent::InitGame {
            frag_limit: number_from(kv_get(data, "fraglimit")),
            capture_limit: number_from(kv_get(data, "capturelimit")),
            time_limit_min: number_from(kv_get(data, "timelimit")),
        })
    } else if same_text(event_name, "ClientConnect") || same_text(event_name, "ClientBegin")
        || same_text(event_name, "ClientDisconnect") {
        match parse_u32(data) {
            Ok(id) => Ok(if same_text(event_name, "ClientConnect") {
                LogEvent::ClientConnect { id }
            } else if same_text(event_name, "ClientBegin") {
                LogEvent::ClientBegin { id }
            } else {
                LogEvent::ClientDisconnect { id }
            }),
            Err(_) => Err(EventParsingError::UnparseableNumber { key_name: "client id", observed_data: String::from_str(data) }),
        }
    } else if same_text(event_name, "ClientUserinfoChanged") {
        lighter_exec(userinfo_from(data))
    } else if same_text(event_name, "Item") {
        Ok(LogEvent::Item)
    } else if same_text(event_name, "Kill") {
        Ok(LogEvent::Kill)
    } else if same_text(event_name, "Exit") {
        Ok(LogEvent::Exit)
    } else if same_text(event_name, "red") {
        lighter_exec(red_from(data))
    } else if same_text(event_name, "score") {
        unsigned_score_from(data)
    } else if same_text(event_name, "ShutdownGame") {
        Ok(LogEvent::ShutdownGame)
    } else {
        Err(EventParsingError::UnknownEventName)
    }
}

/// Parses one time-stamped log line.
pub fn deserialize_log_line(log_line: &str) -> (r: Result<LogEvent, LogParsingError>)
    ensures
        light_line_view(r) == parse_light_line_spec(log_line@),
{
    if log_line.unicode_len() == 0 {
        return Err(LogParsingError::EmptyLine);
    }
    let (event_name, data) = match line_parts_exec(log_line, 2) {
        Some(x) => x,
        None => {
            return Err(LogParsingError::UnrecognizedLineFormat);
        },
    };
    if event_name.unicode_len() > 0 && event_name.get_char(0) == '-' {
        return Ok(LogEvent::Comment);
    }
    match from_parts(event_name, data) {
        Ok(e) => Ok(e),
        Err(e) => Err(LogParsingError::EventParsingError { event_name: String::from_str(event_name), event_parsing_error: e }),
    }
}

} // verus!
