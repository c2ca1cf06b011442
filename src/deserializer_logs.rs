//! Parsing of server log lines into [Quake3FullEvents].
//!
//! A line is `<time> <event name>:<data>`, leading spaces aside; a line whose
//! text after the time starts with `-` is a comment.
use vstd::prelude::*;
use vstd::string::*;

use crate::text::{
    int_error_message, int_error_text, kv_get, kv_get_spec, nth_piece, nth_piece_exec,
    parse_i32, parse_i32_spec, parse_u32, parse_u32_spec, rsplit_once, rsplit_once_spec,
    same_text, split_once, split_once_spec, trim_spaces_spec, trim_start_spaces, IntErrorKind,
};

verus! {

/// The server events, with all that a log line tells of them.
#[derive(Debug, Clone, PartialEq, Eq)]
pub enum Quake3FullEvents {
    /// A match started, with its limits where the line gives them.
    InitGame { frag_limit: Option<u32>, capture_limit: Option<u32>, time_limit_min: Option<u32> },
    /// A player connected.
    ClientConnect { id: u32 },
    /// A player's information changed.
    ClientUserinfoChanged { id: u32, name: String },
    /// A player started playing.
    ClientBegin { id: u32 },
    /// A player left.
    ClientDisconnect { id: u32 },
    /// A player picked an item up.
    Item,
    /// A player chatted.
    Say,
    /// A kill, or a death by injuries or suicide.
    Kill {
        killer_id: u32,
        victim_id: u32,
        reason_id: u32,
        killer_name: String,
        victim_name: String,
        reason_name: String,
    },
    /// The match reached a limit.
    Exit,
    /// Team scores of a capture-the-flag match.
    CaptureTheFlagResults { red: u32, blue: u32 },
    /// A player's score in a death match.
    Score { frags: i32, id: u32, name: String },
    /// The match is over.
    ShutdownGame,
    /// A line that carries no event.
    Comment,
}

/// Why a log line could not be parsed.
#[derive(Debug, Clone, PartialEq, Eq)]
pub enum LogParsingError {
    EmptyLine,
    UnrecognizedLineFormat,
    MandatoryFieldIsEmpty { field_name: &'static str },
    UnparseableTime { field_name: &'static str, observed_number: String },
    EventParsingError { event_name: String, event_parsing_error: EventParsingError },
}

/// Why the data of a known line shape could not be parsed.
#[derive(Debug, Clone, PartialEq, Eq)]
pub enum EventParsingError {
    UnknownEventName,
    UnparseableNumber { key_name: &'static str, observed_data: String },
    AbsentKey { key_name: &'static str },
    UnknownDataFormat { description: String },
}

/// The mathematical model of a [Quake3FullEvents].
pub enum FullEventView {
    InitGame { frag_limit: Option<u32>, capture_limit: Option<u32>, time_limit_min: Option<u32> },
    ClientConnect { id: u32 },
    ClientUserinfoChanged { id: u32, name: Seq<char> },
    ClientBegin { id: u32 },
    ClientDisconnect { id: u32 },
    Item,
    Say,
    Kill {
        killer_id: u32,
        victim_id: u32,
        reason_id: u32,
        killer_name: Seq<char>,
        victim_name: Seq<char>,
        reason_name: Seq<char>,
    },
    Exit,
    CaptureTheFlagResults { red: u32, blue: u32 },
    Score { frags: i32, id: u32, name: Seq<char> },
    ShutdownGame,
    Comment,
}

/// The mathematical model of an [EventParsingError].
pub enum EventErrorView {
    UnknownEventName,
    UnparseableNumber { key_name: Seq<char>, observed_data: Seq<char> },
    AbsentKey { key_name: Seq<char> },
    UnknownDataFormat { description: Seq<char> },
}

/// The mathematical model of a [LogParsingError].
pub enum LineErrorView {
    EmptyLine,
    UnrecognizedLineFormat,
    MandatoryFieldIsEmpty { field_name: Seq<char> },
    UnparseableTime { field_name: Seq<char>, observed_number: Seq<char> },
    EventParsingError { event_name: Seq<char>, event_parsing_error: EventErrorView },
}

impl View for Quake3FullEvents {
    type V = FullEventView;

    open spec fn view(&self) -> FullEventView {
        match self {
            Quake3FullEvents::InitGame { frag_limit, capture_limit, time_limit_min } =>
                FullEventView::InitGame { frag_limit: *frag_limit, capture_limit: *capture_limit, time_limit_min: *time_limit_min },
            Quake3FullEvents::ClientConnect { id } => FullEventView::ClientConnect { id: *id },
            Quake3FullEvents::ClientUserinfoChanged { id, name } => FullEventView::ClientUserinfoChanged { id: *id, name: name@ },
            Quake3FullEvents::ClientBegin { id } => FullEventView::ClientBegin { id: *id },
            Quake3FullEvents::ClientDisconnect { id } => FullEventView::ClientDisconnect { id: *id },
            Quake3FullEvents::Item => FullEventView::Item,
            Quake3FullEvents::Say => FullEventView::Say,
            Quake3FullEvents::Kill { killer_id, victim_id, reason_id, killer_name, victim_name, reason_name } =>
                FullEventView::Kill {
                    killer_id: *killer_id,
                    victim_id: *victim_id,
                    reason_id: *reason_id,
                    killer_name: killer_name@,
                    victim_name: victim_name@,
                    reason_name: reason_name@,
                },
            Quake3FullEvents::Exit => FullEventView::Exit,
            Quake3FullEvents::CaptureTheFlagResults { red, blue } => FullEventView::CaptureTheFlagResults { red: *red, blue: *blue },
            Quake3FullEvents::Score { frags, id, name } => FullEventView::Score { frags: *frags, id: *id, name: name@ },
            Quake3FullEvents::ShutdownGame => FullEventView::ShutdownGame,
            Quake3FullEvents::Comment => FullEventView::Comment,
        }
    }
}

impl View for EventParsingError {
    type V = EventErrorView;

    open spec fn view(&self) -> EventErrorView {
        match self {
            EventParsingError::UnknownEventName => EventErrorView::UnknownEventName,
            EventParsingError::UnparseableNumber { key_name, observed_data } =>
                EventErrorView::UnparseableNumber { key_name: key_name@, observed_data: observed_data@ },
            EventParsingError::AbsentKey { key_name } => EventErrorView::AbsentKey { key_name: key_name@ },
            EventParsingError::UnknownDataFormat { description } => EventErrorView::UnknownDataFormat { description: description@ },
        }
    }
}

impl View for LogParsingError {
    type V = LineErrorView;

    open spec fn view(&self) -> LineErrorView {
        match self {
            LogParsingError::EmptyLine => LineErrorView::EmptyLine,
            LogParsingError::UnrecognizedLineFormat => LineErrorView::UnrecognizedLineFormat,
            LogParsingError::MandatoryFieldIsEmpty { field_name } => LineErrorView::MandatoryFieldIsEmpty { field_name: field_name@ },
            LogParsingError::UnparseableTime { field_name, observed_number } =>
                LineErrorView::UnparseableTime { field_name: field_name@, observed_number: observed_number@ },
            LogParsingError::EventParsingError { event_name, event_parsing_error } =>
                LineErrorView::EventParsingError { event_name: event_name@, event_parsing_error: event_parsing_error@ },
        }
    }
}

pub open spec fn u32_of(s: Seq<char>) -> Option<u32> {
    match parse_u32_spec(s) {
        Ok(v) => Some(v as u32),
        Err(_) => None,
    }
}

pub open spec fn i32_of(s: Seq<char>) -> Option<i32> {
    match parse_i32_spec(s) {
        Ok(v) => Some(v as i32),
        Err(_) => None,
    }
}

pub open spec fn opt_u32_of(s: Option<Seq<char>>) -> Option<u32> {
    match s {
        Some(t) => u32_of(t),
        None => None,
    }
}

/// `s` cut at its first space; the whole of `s` and nothing when it has none.
pub open spec fn cut_at_space(s: Seq<char>) -> (Seq<char>, Option<Seq<char>>) {
    match split_once_spec(s, " "@) {
        Some((a, b)) => (a, Some(b)),
        None => (s, None),
    }
}

pub open spec fn unparseable(key_name: Seq<char>, observed_data: Seq<char>) -> EventErrorView {
    EventErrorView::UnparseableNumber { key_name, observed_data }
}

pub open spec fn bad_format(description: Seq<char>) -> EventErrorView {
    EventErrorView::UnknownDataFormat { description }
}

pub open spec fn userinfo_format_text(data: Seq<char>) -> Seq<char> {
    "event data doesn't appear to be in the form <CLIENT_ID> <SPACE> key1\\val1\\key2\\val2\\...: log data: '"@ + data + "'"@
}

pub open spec fn kill_format_text(data: Seq<char>) -> Seq<char> {
    "`Kill` data doesn't appear to be in the form '<KILLER_ID> <VICTIM_ID> <REASON_ID>: <TEXT_DESCRIPTION>': data is '"@ + data + "'"@
}

pub open spec fn kill_number_text(field: Seq<char>, data: Seq<char>, k: IntErrorKind) -> Seq<char> {
    "Can't parse "@ + field + " from `Kill` data in the form '<KILLER_ID> <VICTIM_ID> <REASON_ID>: <TEXT_DESCRIPTION>' -- '"@
        + data + "': "@ + int_error_text(k)
}

pub open spec fn kill_text_format_text(text: Seq<char>) -> Seq<char> {
    "Text description in `Kill` data appears not to be in the form '<KILLER_NAME> killed <VICTIM_NAME> by <REASON_NAME>' -- it was '"@
        + text + "'"@
}

pub open spec fn red_format_text(data: Seq<char>) -> Seq<char> {
    "event doesn't appear to be in the form 'red:n blue:n': log line: 'red:"@ + data + "'"@
}

pub open spec fn blue_format_text(text: Seq<char>) -> Seq<char> {
    "data couldn't be split into key and value for the blue score -- '"@ + text + "'"@
}

pub open spec fn score_format_text(data: Seq<char>) -> Seq<char> {
    "event doesn't appear to be in the form 'score: n  ping: n  client: n name': log line: 'score:"@ + data + "'"@
}

pub open spec fn client_values_text(data: Seq<char>) -> Seq<char> {
    "couldn't extract client values out of `data` -- '"@ + data + "'"@
}

pub open spec fn client_split_text(text: Seq<char>) -> Seq<char> {
    "couldn't split client id and name out of `client_values` -- '"@ + text + "'"@
}

/// The data of a `Kill` line: `<killer> <victim> <reason>: <killer name> killed
/// <victim name> by <reason name>`.
pub open spec fn kill_spec(data: Seq<char>) -> Result<FullEventView, EventErrorView> {
    let format_error = Err(bad_format(kill_format_text(data)));
    let (killer_text, after_killer) = cut_at_space(data);
    match parse_u32_spec(killer_text) {
        Err(k) => Err(bad_format(kill_number_text("KILLER_ID"@, data, k))),
        Ok(killer_id) => match after_killer {
            None => format_error,
            Some(after_killer) => {
                let (victim_text, after_victim) = cut_at_space(after_killer);
                match parse_u32_spec(victim_text) {
                    Err(k) => Err(bad_format(kill_number_text("VICTIM_ID"@, data, k))),
                    Ok(victim_id) => match after_victim {
                        None => format_error,
                        Some(after_victim) => {
                            let (reason_text, after_reason) = cut_at_space(after_victim);
                            if !(reason_text.len() > 0 && reason_text.last() == ':') {
                                format_error
                            } else {
                                match parse_u32_spec(reason_text.drop_last()) {
                                    Err(k) => Err(bad_format(kill_number_text("REASON_ID"@, data, k))),
                                    Ok(reason_id) => match after_reason {
                                        None => format_error,
                                        Some(text) => match split_once_spec(text, " killed "@) {
                                            None => Err(bad_format(kill_text_format_text(text))),
                                            Some((killer_name, reminder)) => match rsplit_once_spec(reminder, " by "@) {
                                                None => Err(bad_format(kill_text_format_text(text))),
                                                Some((victim_name, reason_name)) => Ok(FullEventView::Kill {
                                                    killer_id: killer_id as u32,
                                                    victim_id: victim_id as u32,
                                                    reason_id: reason_id as u32,
                                                    killer_name,
                                                    victim_name,
                                                    reason_name,
                                                }),
                                            },
                                        },
                                    },
                                }
                            }
                        },
                    },
                }
            },
        },
    }
}

/// The data of a `red` line: `<red> blue:<blue>`.
pub open spec fn red_spec(data: Seq<char>) -> Result<FullEventView, EventErrorView> {
    match split_once_spec(data, " "@) {
        None => Err(bad_format(red_format_text(data))),
        Some((red_value, blue_key_value)) => match u32_of(red_value) {
            None => Err(unparseable("red score"@, red_value)),
            Some(red) => match nth_piece(blue_key_value, ":"@, 1) {
                None => Err(bad_format(blue_format_text(blue_key_value))),
                Some(blue_value) => match u32_of(blue_value) {
                    None => Err(unparseable("blue score"@, blue_value)),
                    Some(blue) => Ok(FullEventView::CaptureTheFlagResults { red, blue }),
                },
            },
        },
    }
}

/// The data of a `score` line: `<frags>  ping: <ping>  client: <id> <name>`.
pub open spec fn score_spec(data: Seq<char>) -> Result<FullEventView, EventErrorView> {
    match split_once_spec(data, " "@) {
        None => Err(bad_format(score_format_text(data))),
        Some((frags_value, rest)) => match i32_of(frags_value) {
            None => Err(unparseable("frags"@, frags_value)),
            Some(frags) => match nth_piece(rest, ": "@, 2) {
                None => Err(bad_format(client_values_text(rest))),
                Some(client_values) => match split_once_spec(client_values, " "@) {
                    None => Err(bad_format(client_split_text(client_values))),
                    Some((id_value, name)) => match u32_of(id_value) {
                        None => Err(unparseable("client_id"@, id_value)),
                        Some(id) => Ok(FullEventView::Score { frags, id, name }),
                    },
                },
            },
        },
    }
}

/// A client id alone as the data, turned into an event by `make`.
pub open spec fn client_id_spec(data: Seq<char>, make: spec_fn(u32) -> FullEventView) -> Result<FullEventView, EventErrorView> {
    match u32_of(data) {
        Some(id) => Ok(make(id)),
        None => Err(unparseable("client id"@, data)),
    }
}

/// The data of a `ClientUserinfoChanged` line: `<id> n\\<name>\\...`.
pub open spec fn userinfo_spec(data: Seq<char>) -> Result<FullEventView, EventErrorView> {
    match split_once_spec(data, " "@) {
        None => Err(bad_format(userinfo_format_text(data))),
        Some((numeric, textual)) => match u32_of(numeric) {
            None => Err(unparseable("client id"@, numeric)),
            Some(id) => match kv_get_spec(textual, "n"@) {
                Some(name) => Ok(FullEventView::ClientUserinfoChanged { id, name }),
                None => Err(EventErrorView::AbsentKey { key_name: "n"@ }),
            },
        },
    }
}

/// The event that a name and its data stand for.
pub open spec fn from_parts_spec(name: Seq<char>, data: Seq<char>) -> Result<FullEventView, EventErrorView> {
    if name == "InitGame"@ {
        Ok(FullEventView::InitGame {
            frag_limit: opt_u32_of(kv_get_spec(data, "fraglimit"@)),
            capture_limit: opt_u32_of(kv_get_spec(data, "capturelimit"@)),
            time_limit_min: opt_u32_of(kv_get_spec(data, "timelimit"@)),
        })
    } else if name == "ClientConnect"@ {
        client_id_spec(data, |id: u32| FullEventView::ClientConnect { id })
    } else if name == "ClientUserinfoChanged"@ {
        userinfo_spec(data)
    } else if name == "ClientBegin"@ {
        client_id_spec(data, |id: u32| FullEventView::ClientBegin { id })
    } else if name == "ClientDisconnect"@ {
        client_id_spec(data, |id: u32| FullEventView::ClientDisconnect { id })
    } else if name == "Item"@ {
        Ok(FullEventView::Item)
    } else if name == "say"@ {
        Ok(FullEventView::Say)
    } else if name == "Kill"@ {
        kill_spec(data)
    } else if name == "Exit"@ {
        Ok(FullEventView::Exit)
    } else if name == "red"@ {
        red_spec(data)
    } else if name == "score"@ {
        score_spec(data)
    } else if name == "ShutdownGame"@ {
        Ok(FullEventView::ShutdownGame)
    } else {
        Err(EventErrorView::UnknownEventName)
    }
}

/// A whole line: leading spaces, the time up to the first space, then either a
/// comment (`-...`) or `<event name>:<data>`, the data without leading spaces.
pub open spec fn parse_line_spec(line: Seq<char>) -> Result<FullEventView, LineErrorView> {
    let l = trim_spaces_spec(line);
    if l.len() == 0 {
        Err(LineErrorView::EmptyLine)
    } else {
        match split_once_spec(l, " "@) {
            None => Err(LineErrorView::UnrecognizedLineFormat),
            Some((_, rest)) => if rest.len() > 0 && rest[0] == '-' {
                Ok(FullEventView::Comment)
            } else {
                match split_once_spec(rest, ":"@) {
                    None => Err(LineErrorView::UnrecognizedLineFormat),
                    Some((name, data)) => match from_parts_spec(name, trim_spaces_spec(data)) {
                        Ok(e) => Ok(e),
                        Err(e) => Err(LineErrorView::EventParsingError { event_name: name, event_parsing_error: e }),
                    },
                }
            },
        }
    }
}

pub open spec fn event_result_view(r: Result<Quake3FullEvents, EventParsingError>) -> Result<FullEventView, EventErrorView> {
    match r {
        Ok(e) => Ok(e@),
        Err(e) => Err(e@),
    }
}

pub open spec fn line_result_view(r: Result<Quake3FullEvents, LogParsingError>) -> Result<FullEventView, LineErrorView> {
    match r {
        Ok(e) => Ok(e@),
        Err(e) => Err(e@),
    }
}

pub open spec fn opt_str_view(s: Option<&str>) -> Option<Seq<char>> {
    match s {
        Some(t) => Some(t@),
        None => None,
    }
}

/// `prefix`, `middle` and `suffix` one after the other.
pub fn wrap_text(prefix: &str, middle: &str, suffix: &str) -> (r: String)
    ensures
        r@ == prefix@ + middle@ + suffix@,
{
    let mut r = String::from_str(prefix);
    r.append(middle);
    r.append(suffix);
    r
}

fn number_error(key_name: &'static str, observed_data: &str) -> (r: EventParsingError)
    ensures
        r@ == unparseable(key_name@, observed_data@),
{
    EventParsingError::UnparseableNumber { key_name, observed_data: String::from_str(observed_data) }
}

fn format_error(description: String) -> (r: EventParsingError)
    ensures
        r@ == bad_format(description@),
{
    EventParsingError::UnknownDataFormat { description }
}

/// Reads an optional `u32`.
pub fn number_from(s: Option<&str>) -> (r: Option<u32>)
    ensures
        r == opt_u32_of(opt_str_view(s)),
{
    match s {
        Some(t) => match parse_u32(t) {
            Ok(v) => Some(v),
            Err(_) => None,
        },
        None => None,
    }
}

/// Cuts `s` at its first space.
pub fn cut_at_space_exec<'a>(s: &'a str) -> (r: (&'a str, Option<&'a str>))
    ensures
        (r.0@, opt_str_view(r.1)) == cut_at_space(s@),
{
    match split_once(s, " ") {
        Some((a, b)) => (a, Some(b)),
        None => (s, None),
    }
}

fn kill_number_error(field: &str, data: &str, k: IntErrorKind) -> (r: EventParsingError)
    ensures
        r@ == bad_format(kill_number_text(field@, data@, k)),
{
    let mut t = String::from_str("Can't parse ");
    t.append(field);
    t.append(" from `Kill` data in the form '<KILLER_ID> <VICTIM_ID> <REASON_ID>: <TEXT_DESCRIPTION>' -- '");
    t.append(data);
    t.append("': ");
    t.append(int_error_message(k));
    format_error(t)
}

/// Parses the data of a `Kill` line.
pub fn kill_from(data: &str) -> (r: Result<Quake3FullEvents, EventParsingError>)
    ensures
        event_result_view(r) == kill_spec(data@),
{
    let (killer_text, after_killer) = cut_at_space_exec(data);
    let killer_id = match parse_u32(killer_text) {
        Ok(v) => v,
        Err(k) => {
            return Err(kill_number_error("KILLER_ID", data, k));
        },
    };
    let after_killer = match after_killer {
        Some(x) => x,
        None => {
            return Err(format_error(wrap_text("`Kill` data doesn't appear to be in the form '<KILLER_ID> <VICTIM_ID> <REASON_ID>: <TEXT_DESCRIPTION>': data is '", data, "'")));
        },
    };
    let (victim_text, after_victim) = cut_at_space_exec(after_killer);
    let victim_id = match parse_u32(victim_text) {
        Ok(v) => v,
        Err(k) => {
            return Err(kill_number_error("VICTIM_ID", data, k));
        },
    };
    let after_victim = match after_victim {
        Some(x) => x,
        None => {
            return Err(format_error(wrap_text("`Kill` data doesn't appear to be in the form '<KILLER_ID> <VICTIM_ID> <REASON_ID>: <TEXT_DESCRIPTION>': data is '", data, "'")));
        },
    };
    let (reason_text, after_reason) = cut_at_space_exec(after_victim);
    let reason_len = reason_text.unicode_len();
    if !(reason_len > 0 && reason_text.get_char(reason_len - 1) == ':') {
        return Err(format_error(wrap_text("`Kill` data doesn't appear to be in the form '<KILLER_ID> <VICTIM_ID> <REASON_ID>: <TEXT_DESCRIPTION>': data is '", data, "'")));
    }
    let stripped = reason_text.substring_char(0, reason_len - 1);
    assert(stripped@ =~= reason_text@.drop_last());
    let reason_id = match parse_u32(stripped) {
        Ok(v) => v,
        Err(k) => {
            return Err(kill_number_error("REASON_ID", data, k));
        },
    };
    let text = match after_reason {
        Some(x) => x,
        None => {
            return Err(format_error(wrap_text("`Kill` data doesn't appear to be in the form '<KILLER_ID> <VICTIM_ID> <REASON_ID>: <TEXT_DESCRIPTION>': data is '", data, "'")));
        },
    };
    let (killer_name, reminder) = match split_once(text, " killed ") {
        Some(x) => x,
        None => {
            return Err(format_error(wrap_text("Text description in `Kill` data appears not to be in the form '<KILLER_NAME> killed <VICTIM_NAME> by <REASON_NAME>' -- it was '", text, "'")));
        },
    };
    proof {
        reveal_strlit(" by ");
    }
    let (victim_name, reason_name) = match rsplit_once(reminder, " by ") {
        Some(x) => x,
        None => {
            return Err(format_error(wrap_text("Text description in `Kill` data appears not to be in the form '<KILLER_NAME> killed <VICTIM_NAME> by <REASON_NAME>' -- it was '", text, "'")));
        },
    };
    Ok(Quake3FullEvents::Kill {
        killer_id,
        victim_id,
        reason_id,
        killer_name: String::from_str(killer_name),
        victim_name: String::from_str(victim_name),
        reason_name: String::from_str(reason_name),
    })
}

/// Parses the data of a `red` line.
pub fn red_from(data: &str) -> (r: Result<Quake3FullEvents, EventParsingError>)
    ensures
        event_result_view(r) == red_spec(data@),
{
    let (red_value, blue_key_value) = match split_once(data, " ") {
        Some(x) => x,
        None => {
            return Err(format_error(wrap_text("event doesn't appear to be in the form 'red:n blue:n': log line: 'red:", data, "'")));
        },
    };
    let red = match parse_u32(red_value) {
        Ok(v) => v,
        Err(_) => {
            return Err(number_error("red score", red_value));
        },
    };
    let blue_value = match nth_piece_exec(blue_key_value, ":", 1) {
        Some(x) => x,
        None => {
            return Err(format_error(wrap_text("data couldn't be split into key and value for the blue score -- '", blue_key_value, "'")));
        },
    };
    let blue = match parse_u32(blue_value) {
        Ok(v) => v,
        Err(_) => {
            return Err(number_error("blue score", blue_value));
        },
    };
    Ok(Quake3FullEvents::CaptureTheFlagResults { red, blue })
}

/// Parses the data of a `score` line.
pub fn score_from(data: &str) -> (r: Result<Quake3FullEvents, EventParsingError>)
    ensures
        event_result_view(r) == score_spec(data@),
{
    let (frags_value, rest) = match split_once(data, " ") {
        Some(x) => x,
        None => {
            return Err(format_error(wrap_text("event doesn't appear to be in the form 'score: n  ping: n  client: n name': log line: 'score:", data, "'")));
        },
    };
    let frags = match parse_i32(frags_value) {
        Ok(v) => v,
        Err(_) => {
            return Err(number_error("frags", frags_value));
        },
    };
    let client_values = match nth_piece_exec(rest, ": ", 2) {
        Some(x) => x,
        None => {
            return Err(format_error(wrap_text("couldn't extract client values out of `data` -- '", rest, "'")));
        },
    };
    let (id_value, name) = match split_once(client_values, " ") {
        Some(x) => x,
        None => {
            return Err(format_error(wrap_text("couldn't split client id and name out of `client_values` -- '", client_values, "'")));
        },
    };
    let id = match parse_u32(id_value) {
        Ok(v) => v,
        Err(_) => {
            return Err(number_error("client_id", id_value));
        },
    };
    Ok(Quake3FullEvents::Score { frags, id, name: String::from_str(name) })
}

/// Parses the data of a `ClientUserinfoChanged` line.
pub fn userinfo_from(data: &str) -> (r: Result<Quake3FullEvents, EventParsingError>)
    ensures
        event_result_view(r) == userinfo_spec(data@),
{
    let (numeric, textual) = match split_once(data, " ") {
        Some(x) => x,
        None => {
            return Err(format_error(wrap_text("event data doesn't appear to be in the form <CLIENT_ID> <SPACE> key1\\val1\\key2\\val2\\...: log data: '", data, "'")));
        },
    };
    let id = match parse_u32(numeric) {
        Ok(v) => v,
        Err(_) => {
            return Err(number_error("client id", numeric));
        },
    };
    match kv_get(textual, "n") {
        Some(name) => Ok(Quake3FullEvents::ClientUserinfoChanged { id, name: String::from_str(name) }),
        None => Err(EventParsingError::AbsentKey { key_name: "n" }),
    }
}

/// The event that `event_name` and its `data` stand for.
pub fn from_parts(event_name: &str, data: &str) -> (r: Result<Quake3FullEvents, EventParsingError>)
    ensures
        event_result_view(r) == from_parts_spec(event_name@, data@),
{
    if same_text(event_name, "InitGame") {
        Ok(Quake3FullEvents::InitGame {
            frag_limit: number_from(kv_get(data, "fraglimit")),
            capture_limit: number_from(kv_get(data, "capturelimit")),
            time_limit_min: number_from(kv_get(data, "timelimit")),
        })
    } else if same_text(event_name, "ClientConnect") {
        match parse_u32(data) {
            Ok(id) => Ok(Quake3FullEvents::ClientConnect { id }),
            Err(_) => Err(number_error("client id", data)),
        }
    } else if same_text(event_name, "ClientUserinfoChanged") {
        userinfo_from(data)
    } else if same_text(event_name, "ClientBegin") {
        match parse_u32(data) {
            Ok(id) => Ok(Quake3FullEvents::ClientBegin { id }),
            Err(_) => Err(number_error("client id", data)),
        }
    } else if same_text(event_name, "ClientDisconnect") {
        match parse_u32(data) {
            Ok(id) => Ok(Quake3FullEvents::ClientDisconnect { id }),
            Err(_) => Err(number_error("client id", data)),
        }
    } else if same_text(event_name, "Item") {
        Ok(Quake3FullEvents::Item)
    } else if same_text(event_name, "say") {
        Ok(Quake3FullEvents::Say)
    } else if same_text(event_name, "Kill") {
        kill_from(data)
    } else if same_text(event_name, "Exit") {
        Ok(Quake3FullEvents::Exit)
    } else if same_text(event_name, "red") {
        red_from(data)
    } else if same_text(event_name, "score") {
        score_from(data)
    } else if same_text(event_name, "ShutdownGame") {
        Ok(Quake3FullEvents::ShutdownGame)
    } else {
        Err(EventParsingError::UnknownEventName)
    }
}

/// Parses one log line.
pub fn deserialize_log_line(log_line: &str) -> (r: Result<Quake3FullEvents, LogParsingError>)
    ensures
        line_result_view(r) == parse_line_spec(log_line@),
{
    let line = trim_start_spaces(log_line);
    if line.unicode_len() == 0 {
        return Err(LogParsingError::EmptyLine);
    }
    let rest = match split_once(line, " ") {
        Some((_, rest)) => rest,
        None => {
            return Err(LogParsingError::UnrecognizedLineFormat);
        },
    };
    if rest.unicode_len() > 0 && rest.get_char(0) == '-' {
        return Ok(Quake3FullEvents::Comment);
    }
    let (event_name, data) = match split_once(rest, ":") {
        Some(x) => x,
        None => {
            return Err(LogParsingError::UnrecognizedLineFormat);
        },
    };
    match from_parts(event_name, trim_start_spaces(data)) {
        Ok(e) => Ok(e),
        Err(e) => Err(LogParsingError::EventParsingError { event_name: String::from_str(event_name), event_parsing_error: e }),
    }
}

} // verus!
