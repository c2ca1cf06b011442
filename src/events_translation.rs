//! From the parsed lines of a log to the raw events of the pipeline.
use vstd::prelude::*;

use crate::deserializer_logs::{FullEventView, Quake3FullEvents};
use crate::events::{Quake3EventView, Quake3Events};

verus! {

/// The raw event, if any, that the item numbered `event_id` of a parsed feed
/// stands for: a line that failed to parse becomes an error event; lines that
/// the summaries do not need (chat, items, team scores, comments, a player
/// starting to play) give nothing.
pub open spec fn translate_spec(event_id: u32, item: Result<FullEventView, Seq<char>>) -> Option<Quake3EventView> {
    match item {
        Err(message) => Some(Quake3EventView::Error { event_id, message }),
        Ok(e) => match e {
            FullEventView::InitGame { .. } => Some(Quake3EventView::InitGame { event_id }),
            FullEventView::ClientConnect { id } => Some(Quake3EventView::ClientConnect { event_id, client_id: id }),
            FullEventView::ClientUserinfoChanged { id, name } =>
                Some(Quake3EventView::ClientUserinfoChanged { event_id, client_id: id, name }),
            FullEventView::ClientDisconnect { id } => Some(Quake3EventView::ClientDisconnect { event_id, client_id: id }),
            FullEventView::Kill { killer_id, victim_id, reason_id, killer_name, victim_name, reason_name } =>
                Some(Quake3EventView::Kill { event_id, killer_id, victim_id, reason_id, killer_name, victim_name, reason_name }),
            FullEventView::Exit => Some(Quake3EventView::Exit { event_id }),
            FullEventView::Score { frags, id, name } => Some(Quake3EventView::Score { event_id, frags, client_id: id, name }),
            FullEventView::ShutdownGame => Some(Quake3EventView::ShutdownGame { event_id }),
            _ => None,
        },
    }
}

pub open spec fn item_view(item: Result<Quake3FullEvents, String>) -> Result<FullEventView, Seq<char>> {
    match item {
        Ok(e) => Ok(e@),
        Err(m) => Err(m@),
    }
}

pub open spec fn opt_raw_view(e: Option<Quake3Events>) -> Option<Quake3EventView> {
    match e {
        Some(x) => Some(x@),
        None => None,
    }
}

/// Translates the item numbered `event_id` (from 1) of a parsed feed.
pub fn translate_quake3_events(event_id: u32, item: Result<Quake3FullEvents, String>) -> (r: Option<Quake3Events>)
    ensures
        opt_raw_view(r) == translate_spec(event_id, item_view(item)),
{
    match item {
        Err(message) => Some(Quake3Events::Error { event_id, message }),
        Ok(e) => match e {
            Quake3FullEvents::InitGame { .. } => Some(Quake3Events::InitGame { event_id }),
            Quake3FullEvents::ClientConnect { id } => Some(Quake3Events::ClientConnect { event_id, client_id: id }),
            Quake3FullEvents::ClientUserinfoChanged { id, name } =>
                Some(Quake3Events::ClientUserinfoChanged { event_id, client_id: id, name }),
            Quake3FullEvents::ClientDisconnect { id } => Some(Quake3Events::ClientDisconnect { event_id, client_id: id }),
            Quake3FullEvents::Kill { killer_id, victim_id, reason_id, killer_name, victim_name, reason_name } =>
                Some(Quake3Events::Kill { event_id, killer_id, victim_id, reason_id, killer_name, victim_name, reason_name }),
            Quake3FullEvents::Exit => Some(Quake3Events::Exit { event_id }),
            Quake3FullEvents::Score { frags, id, name } => Some(Quake3Events::Score { event_id, frags, client_id: id, name }),
            Quake3FullEvents::ShutdownGame => Some(Quake3Events::ShutdownGame { event_id }),
            _ => None,
        },
    }
}

} // verus!
