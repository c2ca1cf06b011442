//! The composite events that flow between the stages of the pipeline.
use vstd::prelude::*;

use crate::events::{Quake3EventView, Quake3Events};

verus! {

/// Either a raw event that no stage has interpreted yet, or a derived logic event.
#[derive(Debug, Clone, PartialEq, Eq)]
pub enum CompositeEvent {
    GameEvent(Quake3Events),
    LogicEvent(LogicEvents),
}

impl CompositeEvent {
    /// True for a feed error or for a violation of the event model.
    pub fn is_err(&self) -> (r: bool)
        ensures
            r == match self {
                CompositeEvent::GameEvent(e) => e is Error,
                CompositeEvent::LogicEvent(l) => l is EventModelViolation,
            },
    {
        match self {
            CompositeEvent::GameEvent(quake3_event) => quake3_event.is_err(),
            CompositeEvent::LogicEvent(logic_event) => logic_event.is_err(),
        }
    }

    /// The sequence id of the raw event this one comes from.
    pub fn event_id(&self) -> (r: u32)
        ensures
            r == match self {
                CompositeEvent::GameEvent(e) => e.spec_event_id(),
                CompositeEvent::LogicEvent(l) => l.spec_quake3_event_id(),
            },
    {
        match self {
            CompositeEvent::GameEvent(quake3_event) => quake3_event.event_id(),
            CompositeEvent::LogicEvent(logic_event) => logic_event.quake3_event_id(),
        }
    }
}

/// Facts derived from the raw events, each with the sequence id of the raw event
/// that produced it.
#[derive(Debug, Clone, PartialEq, Eq)]
pub enum LogicEvents {
    /// A match has started.
    NewGame { quake3_event_id: u32 },
    /// A player got its first name.
    AddPlayer { quake3_event_id: u32, client_id: u32, name: String },
    /// A named player changed its name.
    RenamePlayer { quake3_event_id: u32, client_id: u32, old_name: String, new_name: String },
    /// A player left the match.
    DeletePlayer { quake3_event_id: u32, client_id: u32, name: String },
    /// The cause of one death.
    MeanOfDeath { quake3_event_id: u32, mean_of_death: String },
    /// A player killed someone: one frag up.
    IncFrags { quake3_event_id: u32, client_id: u32, name: String },
    /// A player was killed by `<world>`: one frag down.
    DecFrags { quake3_event_id: u32, client_id: u32, name: String },
    /// The server's own account of a player's frags.
    ReportedScore { quake3_event_id: u32, frags: i32, client_id: u32, name: String },
    /// The match reached one of its limits.
    GameEndedGracefully { quake3_event_id: u32 },
    /// The match ended without reaching a limit.
    GameEndedManually { quake3_event_id: u32 },
    /// The feed broke the expected order of events.
    EventModelViolation { quake3_event_id: u32, violation: EventModelViolations },
}

impl LogicEvents {
    pub open spec fn spec_quake3_event_id(&self) -> u32 {
        match self {
            LogicEvents::NewGame { quake3_event_id } => *quake3_event_id,
            LogicEvents::AddPlayer { quake3_event_id, .. } => *quake3_event_id,
            LogicEvents::RenamePlayer { quake3_event_id, .. } => *quake3_event_id,
            LogicEvents::DeletePlayer { quake3_event_id, .. } => *quake3_event_id,
            LogicEvents::MeanOfDeath { quake3_event_id, .. } => *quake3_event_id,
            LogicEvents::IncFrags { quake3_event_id, .. } => *quake3_event_id,
            LogicEvents::DecFrags { quake3_event_id, .. } => *quake3_event_id,
            LogicEvents::ReportedScore { quake3_event_id, .. } => *quake3_event_id,
            LogicEvents::GameEndedGracefully { quake3_event_id } => *quake3_event_id,
            LogicEvents::GameEndedManually { quake3_event_id } => *quake3_event_id,
            LogicEvents::EventModelViolation { quake3_event_id, .. } => *quake3_event_id,
        }
    }

    /// True for a violation of the event model.
    pub fn is_err(&self) -> (r: bool)
        ensures
            r == (self is EventModelViolation),
    {
        matches!(self, LogicEvents::EventModelViolation { .. })
    }

    /// The sequence id of the raw event this one was derived from.
    pub fn quake3_event_id(&self) -> (r: u32)
        ensures
            r == self.spec_quake3_event_id(),
    {
        match self {
            LogicEvents::NewGame { quake3_event_id } => *quake3_event_id,
            LogicEvents::AddPlayer { quake3_event_id, .. } => *quake3_event_id,
            LogicEvents::RenamePlayer { quake3_event_id, .. } => *quake3_event_id,
            LogicEvents::DeletePlayer { quake3_event_id, .. } => *quake3_event_id,
            LogicEvents::MeanOfDeath { quake3_event_id, .. } => *quake3_event_id,
            LogicEvents::IncFrags { quake3_event_id, .. } => *quake3_event_id,
            LogicEvents::DecFrags { quake3_event_id, .. } => *quake3_event_id,
            LogicEvents::ReportedScore { quake3_event_id, .. } => *quake3_event_id,
            LogicEvents::GameEndedGracefully { quake3_event_id } => *quake3_event_id,
            LogicEvents::GameEndedManually { quake3_event_id } => *quake3_event_id,
            LogicEvents::EventModelViolation { quake3_event_id, .. } => *quake3_event_id,
        }
    }
}

/// Breaches of the expected order of events. They travel as data.
#[derive(Debug, Clone, PartialEq, Eq)]
pub enum EventModelViolations {
    /// A second `InitGame` before a `ShutdownGame`.
    DoubleInit,
    /// A second `ClientConnect` for a client id before its `ClientDisconnect`.
    DoubleConnect,
    /// A lifecycle event outside of a match.
    GameNotStarted,
    /// A `ClientUserinfoChanged` or `ClientDisconnect` for a client that never connected.
    ClientNotConnected { id: u32, name: String },
    /// A frag event names a player otherwise than the identity table does.
    DiscrepantPlayerName { id: u32, local_name: String, game_name: String },
}

/// The mathematical model of an [EventModelViolations].
pub enum ViolationView {
    DoubleInit,
    DoubleConnect,
    GameNotStarted,
    ClientNotConnected { id: u32, name: Seq<char> },
    DiscrepantPlayerName { id: u32, local_name: Seq<char>, game_name: Seq<char> },
}

/// The mathematical model of a [LogicEvents].
pub enum LogicView {
    NewGame { quake3_event_id: u32 },
    AddPlayer { quake3_event_id: u32, client_id: u32, name: Seq<char> },
    RenamePlayer { quake3_event_id: u32, client_id: u32, old_name: Seq<char>, new_name: Seq<char> },
    DeletePlayer { quake3_event_id: u32, client_id: u32, name: Seq<char> },
    MeanOfDeath { quake3_event_id: u32, mean_of_death: Seq<char> },
    IncFrags { quake3_event_id: u32, client_id: u32, name: Seq<char> },
    DecFrags { quake3_event_id: u32, client_id: u32, name: Seq<char> },
    ReportedScore { quake3_event_id: u32, frags: i32, client_id: u32, name: Seq<char> },
    GameEndedGracefully { quake3_event_id: u32 },
    GameEndedManually { quake3_event_id: u32 },
    EventModelViolation { quake3_event_id: u32, violation: ViolationView },
}

/// The mathematical model of a [CompositeEvent].
pub enum CompositeView {
    GameEvent(Quake3EventView),
    LogicEvent(LogicView),
}

impl View for EventModelViolations {
    type V = ViolationView;

    open spec fn view(&self) -> ViolationView {
        match self {
            EventModelViolations::DoubleInit => ViolationView::DoubleInit,
            EventModelViolations::DoubleConnect => ViolationView::DoubleConnect,
            EventModelViolations::GameNotStarted => ViolationView::GameNotStarted,
            EventModelViolations::ClientNotConnected { id, name } =>
                ViolationView::ClientNotConnected { id: *id, name: name@ },
            EventModelViolations::DiscrepantPlayerName { id, local_name, game_name } =>
                ViolationView::DiscrepantPlayerName { id: *id, local_name: local_name@, game_name: game_name@ },
        }
    }
}

impl View for LogicEvents {
    type V = LogicView;

    open spec fn view(&self) -> LogicView {
        match self {
            LogicEvents::NewGame { quake3_event_id } => LogicView::NewGame { quake3_event_id: *quake3_event_id },
            LogicEvents::AddPlayer { quake3_event_id, client_id, name } =>
                LogicView::AddPlayer { quake3_event_id: *quake3_event_id, client_id: *client_id, name: name@ },
            LogicEvents::RenamePlayer { quake3_event_id, client_id, old_name, new_name } =>
                LogicView::RenamePlayer {
                    quake3_event_id: *quake3_event_id,
                    client_id: *client_id,
                    old_name: old_name@,
                    new_name: new_name@,
                },
            LogicEvents::DeletePlayer { quake3_event_id, client_id, name } =>
                LogicView::DeletePlayer { quake3_event_id: *quake3_event_id, client_id: *client_id, name: name@ },
            LogicEvents::MeanOfDeath { quake3_event_id, mean_of_death } =>
                LogicView::MeanOfDeath { quake3_event_id: *quake3_event_id, mean_of_death: mean_of_death@ },
            LogicEvents::IncFrags { quake3_event_id, client_id, name } =>
                LogicView::IncFrags { quake3_event_id: *quake3_event_id, client_id: *client_id, name: name@ },
            LogicEvents::DecFrags { quake3_event_id, client_id, name } =>
                LogicView::DecFrags { quake3_event_id: *quake3_event_id, client_id: *client_id, name: name@ },
            LogicEvents::ReportedScore { quake3_event_id, frags, client_id, name } =>
                LogicView::ReportedScore {
                    quake3_event_id: *quake3_event_id,
                    frags: *frags,
                    client_id: *client_id,
                    name: name@,
                },
            LogicEvents::GameEndedGracefully { quake3_event_id } =>
                LogicView::GameEndedGracefully { quake3_event_id: *quake3_event_id },
            LogicEvents::GameEndedManually { quake3_event_id } =>
                LogicView::GameEndedManually { quake3_event_id: *quake3_event_id },
            LogicEvents::EventModelViolation { quake3_event_id, violation } =>
                LogicView::EventModelViolation { quake3_event_id: *quake3_event_id, violation: violation@ },
        }
    }
}

impl View for CompositeEvent {
    type V = CompositeView;

    open spec fn view(&self) -> CompositeView {
        match self {
            CompositeEvent::GameEvent(e) => CompositeView::GameEvent(e@),
            CompositeEvent::LogicEvent(l) => CompositeView::LogicEvent(l@),
        }
    }
}

pub open spec fn opt_event_view(e: Option<CompositeEvent>) -> Option<CompositeView> {
    match e {
        Some(c) => Some(c@),
        None => None,
    }
}

} // verus!
