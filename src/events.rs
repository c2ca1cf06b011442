//! The raw server events that feed the pipeline.
use vstd::prelude::*;

verus! {

/// One event of the server feed. Every variant carries the 1-based sequence id
/// that the producer gave it.
#[derive(Debug, Clone, PartialEq, Eq)]
pub enum Quake3Events {
    InitGame { event_id: u32 },
    ClientConnect { event_id: u32, client_id: u32 },
    ClientUserinfoChanged { event_id: u32, client_id: u32, name: String },
    ClientDisconnect { event_id: u32, client_id: u32 },
    Kill {
        event_id: u32,
        killer_id: u32,
        victim_id: u32,
        reason_id: u32,
        killer_name: String,
        victim_name: String,
        reason_name: String,
    },
    Exit { event_id: u32 },
    Score { event_id: u32, frags: i32, client_id: u32, name: String },
    ShutdownGame { event_id: u32 },
    /// The feed could not produce an event (I/O or parsing failure), described by `message`.
    Error { event_id: u32, message: String },
}

/// The mathematical model of a [Quake3Events]: the same variants, with text as
/// sequences of characters.
pub enum Quake3EventView {
    InitGame { event_id: u32 },
    ClientConnect { event_id: u32, client_id: u32 },
    ClientUserinfoChanged { event_id: u32, client_id: u32, name: Seq<char> },
    ClientDisconnect { event_id: u32, client_id: u32 },
    Kill {
        event_id: u32,
        killer_id: u32,
        victim_id: u32,
        reason_id: u32,
        killer_name: Seq<char>,
        victim_name: Seq<char>,
        reason_name: Seq<char>,
    },
    Exit { event_id: u32 },
    Score { event_id: u32, frags: i32, client_id: u32, name: Seq<char> },
    ShutdownGame { event_id: u32 },
    Error { event_id: u32, message: Seq<char> },
}

impl View for Quake3Events {
    type V = Quake3EventView;

    open spec fn view(&self) -> Quake3EventView {
        match self {
            Quake3Events::InitGame { event_id } => Quake3EventView::InitGame { event_id: *event_id },
            Quake3Events::ClientConnect { event_id, client_id } =>
                Quake3EventView::ClientConnect { event_id: *event_id, client_id: *client_id },
            Quake3Events::ClientUserinfoChanged { event_id, client_id, name } =>
                Quake3EventView::ClientUserinfoChanged { event_id: *event_id, client_id: *client_id, name: name@ },
            Quake3Events::ClientDisconnect { event_id, client_id } =>
                Quake3EventView::ClientDisconnect { event_id: *event_id, client_id: *client_id },
            Quake3Events::Kill { event_id, killer_id, victim_id, reason_id, killer_name, victim_name, reason_name } =>
                Quake3EventView::Kill {
                    event_id: *event_id,
                    killer_id: *killer_id,
                    victim_id: *victim_id,
                    reason_id: *reason_id,
                    killer_name: killer_name@,
                    victim_name: victim_name@,
                    reason_name: reason_name@,
                },
            Quake3Events::Exit { event_id } => Quake3EventView::Exit { event_id: *event_id },
            Quake3Events::Score { event_id, frags, client_id, name } =>
                Quake3EventView::Score { event_id: *event_id, frags: *frags, client_id: *client_id, name: name@ },
            Quake3Events::ShutdownGame { event_id } => Quake3EventView::ShutdownGame { event_id: *event_id },
            Quake3Events::Error { event_id, message } => Quake3EventView::Error { event_id: *event_id, message: message@ },
        }
    }
}

impl Quake3Events {
    /// The sequence id of the event, whatever its variant.
    pub open spec fn spec_event_id(&self) -> u32 {
        match self {
            Quake3Events::InitGame { event_id } => *event_id,
            Quake3Events::ClientConnect { event_id, .. } => *event_id,
            Quake3Events::ClientUserinfoChanged { event_id, .. } => *event_id,
            Quake3Events::ClientDisconnect { event_id, .. } => *event_id,
            Quake3Events::Kill { event_id, .. } => *event_id,
            Quake3Events::Exit { event_id } => *event_id,
            Quake3Events::Score { event_id, .. } => *event_id,
            Quake3Events::ShutdownGame { event_id } => *event_id,
            Quake3Events::Error { event_id, .. } => *event_id,
        }
    }

    /// True if the event was not derived from a feed error.
    pub fn is_ok(&self) -> (r: bool)
        ensures
            r == !(self is Error),
    {
        !matches!(self, Quake3Events::Error { .. })
    }

    /// True if the event stands for a feed error.
    pub fn is_err(&self) -> (r: bool)
        ensures
            r == (self is Error),
    {
        matches!(self, Quake3Events::Error { .. })
    }

    /// The description of a feed error.
    pub fn unwrap_err(&self) -> (r: &String)
        requires
            self is Error,
        ensures
            r@ == self->Error_message@,
    {
        match self {
            Quake3Events::Error { message, .. } => message,
            _ => {
                proof {
                    assert(false);
                }
                unreached()
            },
        }
    }

    /// The sequence id of the event.
    pub fn event_id(&self) -> (r: u32)
        ensures
            r == self.spec_event_id(),
    {
        match self {
            Quake3Events::InitGame { event_id } => *event_id,
            Quake3Events::ClientConnect { event_id, .. } => *event_id,
            Quake3Events::ClientUserinfoChanged { event_id, .. } => *event_id,
            Quake3Events::ClientDisconnect { event_id, .. } => *event_id,
            Quake3Events::Kill { event_id, .. } => *event_id,
            Quake3Events::Exit { event_id } => *event_id,
            Quake3Events::Score { event_id, .. } => *event_id,
            Quake3Events::ShutdownGame { event_id } => *event_id,
            Quake3Events::Error { event_id, .. } => *event_id,
        }
    }
}

} // verus!
