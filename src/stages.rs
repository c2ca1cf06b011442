//! The stages between the raw feed and the summarizer: the lifecycle composer,
//! the means-of-death, kills and reported-score analyses, and the player
//! identity resolver.
use vstd::prelude::*;
use vstd::string::*;

use crate::dtos::{
    opt_event_view, CompositeEvent, CompositeView, EventModelViolations, LogicEvents, LogicView,
    ViolationView,
};
use crate::events::{Quake3EventView, Quake3Events};
use crate::text::{decimal, decimal_spec, same_text};

verus! {

/// The text of a feed error once the composer has named its sequence id.
pub open spec fn feed_error_text(event_id: u32, message: Seq<char>) -> Seq<char> {
    "Event #"@ + decimal_spec(event_id as nat) + ": Feed error: "@ + message
}

/// The name that the server gives to deaths without a killer.
pub open spec fn world_name() -> Seq<char> {
    "<world>"@
}

/// Name used for a player whose name is not known.
pub open spec fn unnamed() -> Seq<char> {
    "NONE"@
}

/// Name used in a violation for a client that never connected.
pub open spec fn unknown_name() -> Seq<char> {
    "<unknown>"@
}

/// The composer's rule for one raw event: its state after it, and what it emits.
pub open spec fn compose_spec(st: LifecycleComposer, event: Quake3EventView) -> (LifecycleComposer, Option<CompositeView>) {
    match event {
        Quake3EventView::InitGame { event_id } => if st.in_game {
            (st, Some(CompositeView::LogicEvent(LogicView::EventModelViolation {
                quake3_event_id: event_id,
                violation: ViolationView::DoubleInit,
            })))
        } else {
            (LifecycleComposer { in_game: true, graceful_game_end: false },
             Some(CompositeView::LogicEvent(LogicView::NewGame { quake3_event_id: event_id })))
        },
        Quake3EventView::Exit { event_id } => if st.in_game {
            (LifecycleComposer { graceful_game_end: true, ..st }, None)
        } else {
            (st, Some(CompositeView::LogicEvent(LogicView::EventModelViolation {
                quake3_event_id: event_id,
                violation: ViolationView::GameNotStarted,
            })))
        },
        Quake3EventView::ShutdownGame { event_id } => if st.in_game {
            (LifecycleComposer { in_game: false, ..st }, Some(CompositeView::LogicEvent(if st.graceful_game_end {
                LogicView::GameEndedGracefully { quake3_event_id: event_id }
            } else {
                LogicView::GameEndedManually { quake3_event_id: event_id }
            })))
        } else {
            (st, Some(CompositeView::LogicEvent(LogicView::EventModelViolation {
                quake3_event_id: event_id,
                violation: ViolationView::GameNotStarted,
            })))
        },
        Quake3EventView::Error { event_id, message } =>
            (st, Some(CompositeView::GameEvent(Quake3EventView::Error {
                event_id,
                message: feed_error_text(event_id, message),
            }))),
        _ => (st, Some(CompositeView::GameEvent(event))),
    }
}

/// The means-of-death rule: a `Kill` is preceded by the `MeanOfDeath` it carries.
pub open spec fn means_of_death_spec(event: CompositeView) -> Seq<CompositeView> {
    match event {
        CompositeView::GameEvent(Quake3EventView::Kill { event_id, reason_name, .. }) => seq![
            CompositeView::LogicEvent(LogicView::MeanOfDeath { quake3_event_id: event_id, mean_of_death: reason_name }),
            event,
        ],
        _ => seq![event],
    }
}

/// The kills rule: the killer gains a frag, or, for a `<world>` kill, the victim loses one.
pub open spec fn kills_spec(event: CompositeView) -> CompositeView {
    match event {
        CompositeView::GameEvent(Quake3EventView::Kill { event_id, killer_id, victim_id, killer_name, victim_name, .. }) =>
            if killer_name != world_name() {
                CompositeView::LogicEvent(LogicView::IncFrags { quake3_event_id: event_id, client_id: killer_id, name: killer_name })
            } else {
                CompositeView::LogicEvent(LogicView::DecFrags { quake3_event_id: event_id, client_id: victim_id, name: victim_name })
            },
        _ => event,
    }
}

/// The reported-score rule: a `Score` becomes a `ReportedScore`.
pub open spec fn reported_scores_spec(event: CompositeView) -> CompositeView {
    match event {
        CompositeView::GameEvent(Quake3EventView::Score { event_id, frags, client_id, name }) =>
            CompositeView::LogicEvent(LogicView::ReportedScore { quake3_event_id: event_id, frags, client_id, name }),
        _ => event,
    }
}

/// The first mandatory stage: enforces the start / stop grammar of matches.
pub struct LifecycleComposer {
    pub in_game: bool,
    pub graceful_game_end: bool,
}

impl LifecycleComposer {
    /// Outside of any match.
    pub fn new() -> (r: LifecycleComposer)
        ensures
            !r.in_game,
            !r.graceful_game_end,
    {
        LifecycleComposer { in_game: false, graceful_game_end: false }
    }

    /// Turns one raw event into at most one composite event.
    pub fn compose(&mut self, event: Quake3Events) -> (r: Option<CompositeEvent>)
        ensures
            (*final(self), opt_event_view(r)) == compose_spec(*old(self), event@),
    {
        match event {
            Quake3Events::InitGame { event_id } => {
                if self.in_game {
                    Some(CompositeEvent::LogicEvent(LogicEvents::EventModelViolation {
                        quake3_event_id: event_id,
                        violation: EventModelViolations::DoubleInit,
                    }))
                } else {
                    self.in_game = true;
                    self.graceful_game_end = false;
                    Some(CompositeEvent::LogicEvent(LogicEvents::NewGame { quake3_event_id: event_id }))
                }
            },
            Quake3Events::Exit { event_id } => {
                if self.in_game {
                    self.graceful_game_end = true;
                    None
                } else {
                    Some(CompositeEvent::LogicEvent(LogicEvents::EventModelViolation {
                        quake3_event_id: event_id,
                        violation: EventModelViolations::GameNotStarted,
                    }))
                }
            },
            Quake3Events::ShutdownGame { event_id } => {
                if self.in_game {
                    self.in_game = false;
                    if self.graceful_game_end {
                        Some(CompositeEvent::LogicEvent(LogicEvents::GameEndedGracefully { quake3_event_id: event_id }))
                    } else {
                        Some(CompositeEvent::LogicEvent(LogicEvents::GameEndedManually { quake3_event_id: event_id }))
                    }
                } else {
                    Some(CompositeEvent::LogicEvent(LogicEvents::EventModelViolation {
                        quake3_event_id: event_id,
                        violation: EventModelViolations::GameNotStarted,
                    }))
                }
            },
            Quake3Events::Error { event_id, message } => {
                let mut text = String::from_str("Event #");
                let id_text = decimal(event_id);
                text.append(id_text.as_str());
                text.append(": Feed error: ");
                text.append(message.as_str());
                assert(text@ =~= feed_error_text(event_id, message@));
                Some(CompositeEvent::GameEvent(Quake3Events::Error { event_id, message: text }))
            },
            _ => Some(CompositeEvent::GameEvent(event)),
        }
    }
}

/// The means-of-death analysis: for a `Kill`, a `MeanOfDeath` logic event is
/// emitted ahead of the `Kill` itself, which goes on unchanged. Every other
/// event passes alone.
pub fn means_of_death(event: CompositeEvent) -> (r: Vec<CompositeEvent>)
    ensures
        r@.map_values(|c: CompositeEvent| c@) == means_of_death_spec(event@),
{
    let mut r: Vec<CompositeEvent> = Vec::new();
    match &event {
        CompositeEvent::GameEvent(Quake3Events::Kill { event_id, reason_name, .. }) => {
            r.push(CompositeEvent::LogicEvent(LogicEvents::MeanOfDeath {
                quake3_event_id: *event_id,
                mean_of_death: reason_name.clone(),
            }));
        },
        _ => {},
    }
    r.push(event);
    assert(r@.map_values(|c: CompositeEvent| c@) =~= means_of_death_spec(event@));
    r
}

/// The kills analysis: a `Kill` becomes one frag up for the killer, or, when the
/// killer is `<world>`, one frag down for the victim. Every other event passes.
pub fn kills(event: CompositeEvent) -> (r: CompositeEvent)
    ensures
        r@ == kills_spec(event@),
{
    match event {
        CompositeEvent::GameEvent(Quake3Events::Kill { event_id, killer_id, victim_id, killer_name, victim_name, .. }) => {
            if !same_text(killer_name.as_str(), "<world>") {
                CompositeEvent::LogicEvent(LogicEvents::IncFrags { quake3_event_id: event_id, client_id: killer_id, name: killer_name })
            } else {
                CompositeEvent::LogicEvent(LogicEvents::DecFrags { quake3_event_id: event_id, client_id: victim_id, name: victim_name })
            }
        },
        _ => event,
    }
}

/// The reported-score analysis: a `Score` becomes a `ReportedScore`. Every other
/// event passes.
pub fn game_reported_scores(event: CompositeEvent) -> (r: CompositeEvent)
    ensures
        r@ == reported_scores_spec(event@),
{
    match event {
        CompositeEvent::GameEvent(Quake3Events::Score { event_id, frags, client_id, name }) =>
            CompositeEvent::LogicEvent(LogicEvents::ReportedScore { quake3_event_id: event_id, frags, client_id, name }),
        _ => event,
    }
}

/// The identity table as the mathematical model sees it: client ids with their
/// current name, `None` for a client that connected and has no name yet.
pub type IdentityTable = Seq<(u32, Option<Seq<char>>)>;

pub open spec fn opt_name_view(n: Option<String>) -> Option<Seq<char>> {
    match n {
        Some(s) => Some(s@),
        None => None,
    }
}

pub open spec fn table_view(t: Seq<(u32, Option<String>)>) -> IdentityTable {
    t.map_values(|e: (u32, Option<String>)| (e.0, opt_name_view(e.1)))
}

pub open spec fn ids_of(t: IdentityTable) -> Seq<u32> {
    t.map_values(|e: (u32, Option<Seq<char>>)| e.0)
}

/// The entry of `id`: `None` when the client is not connected.
pub open spec fn lookup(t: IdentityTable, id: u32) -> Option<Option<Seq<char>>> {
    if ids_of(t).contains(id) {
        Some(t[ids_of(t).index_of(id)].1)
    } else {
        None
    }
}

/// The table with the entry of `id` set to `name`.
pub open spec fn table_put(t: IdentityTable, id: u32, name: Option<Seq<char>>) -> IdentityTable {
    if ids_of(t).contains(id) {
        t.update(ids_of(t).index_of(id), (id, name))
    } else {
        t.push((id, name))
    }
}

/// The table without the entry of `id`.
pub open spec fn table_drop(t: IdentityTable, id: u32) -> IdentityTable {
    if ids_of(t).contains(id) {
        t.remove(ids_of(t).index_of(id))
    } else {
        t
    }
}

/// The name the table holds for `id`, or the placeholder for an unnamed or
/// unknown client.
pub open spec fn local_name(t: IdentityTable, id: u32) -> Seq<char> {
    match lookup(t, id) {
        Some(Some(n)) => n,
        _ => unnamed(),
    }
}

/// What the resolver does with a frag event for `client_id` under `name`:
/// forwarded when the table holds that very name, else replaced by a
/// discrepancy violation.
pub open spec fn checked_frag(t: IdentityTable, event: CompositeView, quake3_event_id: u32, client_id: u32, name: Seq<char>) -> CompositeView {
    if lookup(t, client_id) == Some(Some(name)) {
        event
    } else {
        CompositeView::LogicEvent(LogicView::EventModelViolation {
            quake3_event_id,
            violation: ViolationView::DiscrepantPlayerName { id: client_id, local_name: local_name(t, client_id), game_name: name },
        })
    }
}

/// The resolver's rule for one event: the table after it, and what it emits.
/// Frag events are checked against the table only when `check_names` is set.
pub open spec fn resolve_spec(t: IdentityTable, event: CompositeView, check_names: bool) -> (IdentityTable, Option<CompositeView>) {
    match event {
        CompositeView::LogicEvent(LogicView::NewGame { .. }) => (Seq::empty(), Some(event)),
        CompositeView::LogicEvent(LogicView::IncFrags { quake3_event_id, client_id, name }) =>
            (t, Some(if check_names { checked_frag(t, event, quake3_event_id, client_id, name) } else { event })),
        CompositeView::LogicEvent(LogicView::DecFrags { quake3_event_id, client_id, name }) =>
            (t, Some(if check_names { checked_frag(t, event, quake3_event_id, client_id, name) } else { event })),
        CompositeView::GameEvent(Quake3EventView::ClientConnect { event_id, client_id }) =>
            if lookup(t, client_id) is Some {
                (t, Some(CompositeView::LogicEvent(LogicView::EventModelViolation {
                    quake3_event_id: event_id,
                    violation: ViolationView::DoubleConnect,
                })))
            } else {
                (table_put(t, client_id, None), None)
            },
        CompositeView::GameEvent(Quake3EventView::ClientUserinfoChanged { event_id, client_id, name }) =>
            match lookup(t, client_id) {
                None => (t, Some(CompositeView::LogicEvent(LogicView::EventModelViolation {
                    quake3_event_id: event_id,
                    violation: ViolationView::ClientNotConnected { id: client_id, name },
                }))),
                Some(Some(old_name)) => (table_put(t, client_id, Some(name)), Some(CompositeView::LogicEvent(
                    LogicView::RenamePlayer { quake3_event_id: event_id, client_id, old_name, new_name: name },
                ))),
                Some(None) => (table_put(t, client_id, Some(name)), Some(CompositeView::LogicEvent(
                    LogicView::AddPlayer { quake3_event_id: event_id, client_id, name },
                ))),
            },
        CompositeView::GameEvent(Quake3EventView::ClientDisconnect { event_id, client_id }) =>
            if lookup(t, client_id) is Some {
                (table_drop(t, client_id), Some(CompositeView::LogicEvent(LogicView::DeletePlayer {
                    quake3_event_id: event_id,
                    client_id,
                    name: local_name(t, client_id),
                })))
            } else {
                (t, Some(CompositeView::LogicEvent(LogicView::EventModelViolation {
                    quake3_event_id: event_id,
                    violation: ViolationView::ClientNotConnected { id: client_id, name: unknown_name() },
                })))
            },
        _ => (t, Some(event)),
    }
}

/// The optional player identity stage: tracks which client holds which name.
pub struct PlayerIdentityResolver {
    pub players: Vec<(u32, Option<String>)>,
}

/// The position of the entry of `id` in `t`.
fn find_id(t: &Vec<(u32, Option<String>)>, id: u32) -> (r: Option<usize>)
    ensures
        match r {
            Some(i) => i < t.len() && t@[i as int].0 == id,
            None => !ids_of(table_view(t@)).contains(id),
        },
{
    let mut i: usize = 0;
    while i < t.len()
        invariant
            i <= t.len(),
            forall|j: int| 0 <= j < i ==> t@[j].0 != id,
        decreases t.len() - i,
    {
        if t[i].0 == id {
            return Some(i);
        }
        i += 1;
    }
    assert forall|j: int| 0 <= j < t.len() implies ids_of(table_view(t@))[j] != id by {}
    None
}

impl PlayerIdentityResolver {
    pub open spec fn table(&self) -> IdentityTable {
        table_view(self.players@)
    }

    /// Each client id has at most one entry.
    pub open spec fn wf(&self) -> bool {
        ids_of(self.table()).no_duplicates()
    }

    /// An empty table.
    pub fn new() -> (r: PlayerIdentityResolver)
        ensures
            r.table() == Seq::<(u32, Option<Seq<char>>)>::empty(),
            r.wf(),
    {
        let r = PlayerIdentityResolver { players: Vec::new() };
        assert(r.table() =~= Seq::<(u32, Option<Seq<char>>)>::empty());
        r
    }

    /// Translates connections, name changes and disconnections into logic
    /// events, and, when `check_names` is set, holds frag events to the table.
    pub fn resolve(&mut self, event: CompositeEvent, check_names: bool) -> (r: Option<CompositeEvent>)
        requires
            old(self).wf(),
        ensures
            final(self).wf(),
            (final(self).table(), opt_event_view(r)) == resolve_spec(old(self).table(), event@, check_names),
    {
        let ghost t = self.table();
        match event {
            CompositeEvent::LogicEvent(LogicEvents::NewGame { quake3_event_id }) => {
                self.players.clear();
                assert(self.table() =~= Seq::<(u32, Option<Seq<char>>)>::empty());
                Some(CompositeEvent::LogicEvent(LogicEvents::NewGame { quake3_event_id }))
            },
            CompositeEvent::LogicEvent(LogicEvents::IncFrags { quake3_event_id, client_id, name }) => {
                if check_names {
                    match self.name_check(client_id, &name) {
                        Ok(()) => Some(CompositeEvent::LogicEvent(LogicEvents::IncFrags { quake3_event_id, client_id, name })),
                        Err(local) => Some(CompositeEvent::LogicEvent(LogicEvents::EventModelViolation {
                            quake3_event_id,
                            violation: EventModelViolations::DiscrepantPlayerName { id: client_id, local_name: local, game_name: name },
                        })),
                    }
                } else {
                    Some(CompositeEvent::LogicEvent(LogicEvents::IncFrags { quake3_event_id, client_id, name }))
                }
            },
            CompositeEvent::LogicEvent(LogicEvents::DecFrags { quake3_event_id, client_id, name }) => {
                if check_names {
                    match self.name_check(client_id, &name) {
                        Ok(()) => Some(CompositeEvent::LogicEvent(LogicEvents::DecFrags { quake3_event_id, client_id, name })),
                        Err(local) => Some(CompositeEvent::LogicEvent(LogicEvents::EventModelViolation {
                            quake3_event_id,
                            violation: EventModelViolations::DiscrepantPlayerName { id: client_id, local_name: local, game_name: name },
                        })),
                    }
                } else {
                    Some(CompositeEvent::LogicEvent(LogicEvents::DecFrags { quake3_event_id, client_id, name }))
                }
            },
            CompositeEvent::GameEvent(Quake3Events::ClientConnect { event_id, client_id }) => {
                match find_id(&self.players, client_id) {
                    Some(i) => {
                        assert(ids_of(t)[i as int] == client_id);
                        Some(CompositeEvent::LogicEvent(LogicEvents::EventModelViolation {
                            quake3_event_id: event_id,
                            violation: EventModelViolations::DoubleConnect,
                        }))
                    },
                    None => {
                        self.players.push((client_id, None));
                        assert(self.table() =~= t.push((client_id, None)));
                        assert(ids_of(self.table()) =~= ids_of(t).push(client_id));
                        None
                    },
                }
            },
            CompositeEvent::GameEvent(Quake3Events::ClientUserinfoChanged { event_id, client_id, name }) => {
                match find_id(&self.players, client_id) {
                    Some(i) => {
                        assert(ids_of(t)[i as int] == client_id);
                        assert(ids_of(t).index_of(client_id) == i);
                        let (_, stored) = self.players.remove(i);
                        self.players.insert(i, (client_id, Some(name.clone())));
                        assert(self.table() =~= t.update(i as int, (client_id, Some(name@))));
                        assert(ids_of(self.table()) =~= ids_of(t));
                        match stored {
                            Some(old_name) => Some(CompositeEvent::LogicEvent(LogicEvents::RenamePlayer {
                                quake3_event_id: event_id,
                                client_id,
                                old_name,
                                new_name: name,
                            })),
                            None => Some(CompositeEvent::LogicEvent(LogicEvents::AddPlayer {
                                quake3_event_id: event_id,
                                client_id,
                                name,
                            })),
                        }
                    },
                    None => Some(CompositeEvent::LogicEvent(LogicEvents::EventModelViolation {
                        quake3_event_id: event_id,
                        violation: EventModelViolations::ClientNotConnected { id: client_id, name },
                    })),
                }
            },
            CompositeEvent::GameEvent(Quake3Events::ClientDisconnect { event_id, client_id }) => {
                match find_id(&self.players, client_id) {
                    Some(i) => {
                        assert(ids_of(t)[i as int] == client_id);
                        assert(ids_of(t).index_of(client_id) == i);
                        let (_, stored) = self.players.remove(i);
                        assert(self.table() =~= t.remove(i as int));
                        assert(ids_of(self.table()) =~= ids_of(t).remove(i as int));
                        let name = match stored {
                            Some(n) => n,
                            None => {
                                proof {
                                    reveal_strlit("NONE");
                                }
                                String::from_str("NONE")
                            },
                        };
                        Some(CompositeEvent::LogicEvent(LogicEvents::DeletePlayer { quake3_event_id: event_id, client_id, name }))
                    },
                    None => {
                        proof {
                            reveal_strlit("<unknown>");
                        }
                        Some(CompositeEvent::LogicEvent(LogicEvents::EventModelViolation {
                            quake3_event_id: event_id,
                            violation: EventModelViolations::ClientNotConnected { id: client_id, name: String::from_str("<unknown>") },
                        }))
                    },
                }
            },
            _ => Some(event),
        }
    }

    /// `Ok` when the table holds `name` for `client_id`; else the name it holds,
    /// or the placeholder.
    fn name_check(&self, client_id: u32, name: &String) -> (r: Result<(), String>)
        requires
            self.wf(),
        ensures
            r is Ok <==> lookup(self.table(), client_id) == Some(Some(name@)),
            r matches Err(l) ==> l@ == local_name(self.table(), client_id),
    {
        let ghost t = self.table();
        match find_id(&self.players, client_id) {
            Some(i) => {
                assert(ids_of(t)[i as int] == client_id);
                assert(ids_of(t).index_of(client_id) == i);
                match &self.players[i].1 {
                    Some(stored) => {
                        if *stored == *name {
                            Ok(())
                        } else {
                            Err(stored.clone())
                        }
                    },
                    None => {
                        proof {
                            reveal_strlit("NONE");
                        }
                        Err(String::from_str("NONE"))
                    },
                }
            },
            None => {
                proof {
                    reveal_strlit("NONE");
                }
                Err(String::from_str("NONE"))
            },
        }
    }
}

} // verus!
