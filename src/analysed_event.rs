//! Events between stages in a second shape: a composite event whose logic
//! events are named [LogicEvent], and an [AnalysedEvent] that holds a raw event
//! beside the logic event derived from it.
use vstd::prelude::*;

use crate::events::Quake3Events;

verus! {

/// Either a raw event that no stage has interpreted yet, or a derived logic event.
#[derive(Debug, Clone, PartialEq, Eq)]
pub enum CompositeEvent {
    GameEvent(Quake3Events),
    LogicEvent(LogicEvent),
}

impl CompositeEvent {
    /// True for a feed error or for a violation of the event model.
    pub fn is_err(&self) -> (r: bool)
        ensures
            r == match self {
                CompositeEvent::GameEvent(e) => e is Error,
                CompositeEvent::LogicEvent(l) => l is EventModelViolation,
            },
    {
        match self {
            CompositeEvent::GameEvent(quake3_event) => quake3_event.is_err(),
            CompositeEvent::LogicEvent(logic_event) => logic_event.is_err(),
        }
    }

    /// The sequence id of the raw event this one comes from.
    pub fn event_id(&self) -> (r: u32)
        ensures
            r == match self {
                CompositeEvent::GameEvent(e) => e.spec_event_id(),
                CompositeEvent::LogicEvent(l) => l.spec_quake3_event_id(),
            },
    {
        match self {
            CompositeEvent::GameEvent(quake3_event) => quake3_event.event_id(),
            CompositeEvent::LogicEvent(logic_event) => logic_event.quake3_event_id(),
        }
    }
}

/// A raw event, or the text of why it could not be had, with the logic event
/// derived from it, if any.
#[derive(Debug, PartialEq, Eq)]
pub struct AnalysedEvent {
    pub event_id: usize,
    pub game_event: Result<Quake3Events, String>,
    pub logic_event: Option<LogicEvent>,
}

/// Facts derived from the raw events, each with the sequence id of its raw event.
#[derive(Debug, Clone, PartialEq, Eq)]
pub enum LogicEvent {
    NewGame { quake3_event_id: u32 },
    AddPlayer { quake3_event_id: u32, client_id: u32, name: String },
    RenamePlayer { quake3_event_id: u32, client_id: u32, old_name: String, new_name: String },
    DeletePlayer { quake3_event_id: u32, client_id: u32, name: String },
    MeanOfDeath { quake3_event_id: u32, mean_of_death: String },
    IncFrags { quake3_event_id: u32, client_id: u32, name: String },
    DecFrags { quake3_event_id: u32, client_id: u32, name: String },
    ReportedScore { quake3_event_id: u32, frags: i32, client_id: u32, name: String },
    GameEndedGracefully { quake3_event_id: u32 },
    GameEndedManually { quake3_event_id: u32 },
    EventModelViolation { quake3_event_id: u32, violation: EventModelViolations },
}

impl LogicEvent {
    pub open spec fn spec_quake3_event_id(&self) -> u32 {
        match self {
            LogicEvent::NewGame { quake3_event_id } => *quake3_event_id,
            LogicEvent::AddPlayer { quake3_event_id, .. } => *quake3_event_id,
            LogicEvent::RenamePlayer { quake3_event_id, .. } => *quake3_event_id,
            LogicEvent::DeletePlayer { quake3_event_id, .. } => *quake3_event_id,
            LogicEvent::MeanOfDeath { quake3_event_id, .. } => *quake3_event_id,
            LogicEvent::IncFrags { quake3_event_id, .. } => *quake3_event_id,
            LogicEvent::DecFrags { quake3_event_id, .. } => *quake3_event_id,
            LogicEvent::ReportedScore { quake3_event_id, .. } => *quake3_event_id,
            LogicEvent::GameEndedGracefully { quake3_event_id } => *quake3_event_id,
            LogicEvent::GameEndedManually { quake3_event_id } => *quake3_event_id,
            LogicEvent::EventModelViolation { quake3_event_id, .. } => *quake3_event_id,
        }
    }

    /// True for a violation of the event model.
    pub fn is_err(&self) -> (r: bool)
        ensures
            r == (self is EventModelViolation),
    {
        matches!(self, LogicEvent::EventModelViolation { .. })
    }

    /// The sequence id of the raw event this one was derived from.
    pub fn quake3_event_id(&self) -> (r: u32)
        ensures
            r == self.spec_quake3_event_id(),
    {
        match self {
            LogicEvent::NewGame { quake3_event_id } => *quake3_event_id,
            LogicEvent::AddPlayer { quake3_event_id, .. } => *quake3_event_id,
            LogicEvent::RenamePlayer { quake3_event_id, .. } => *quake3_event_id,
            LogicEvent::DeletePlayer { quake3_event_id, .. } => *quake3_event_id,
            LogicEvent::MeanOfDeath { quake3_event_id, .. } => *quake3_event_id,
            LogicEvent::IncFrags { quake3_event_id, .. } => *quake3_event_id,
            LogicEvent::DecFrags { quake3_event_id, .. } => *quake3_event_id,
            LogicEvent::ReportedScore { quake3_event_id, .. } => *quake3_event_id,
            LogicEvent::GameEndedGracefully { quake3_event_id } => *quake3_event_id,
            LogicEvent::GameEndedManually { quake3_event_id } => *quake3_event_id,
            LogicEvent::EventModelViolation { quake3_event_id, .. } => *quake3_event_id,
        }
    }
}

/// Breaches of the expected order of events.
#[derive(Debug, Clone, PartialEq, Eq)]
pub enum EventModelViolations {
    DoubleInit,
    DoubleConnect,
    GameNotStarted,
    ClientNotConnected { id: u32, name: String },
    DiscrepantPlayerName { id: u32, local_name: String, game_name: String },
}

} // verus!
