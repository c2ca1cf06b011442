//! The terminal stage: folds logic events into one summary per match.
use vstd::prelude::*;

use crate::dtos::{CompositeEvent, CompositeView, EventModelViolations, LogicEvents, LogicView, ViolationView};
use crate::report::{
    departures_view, find_name, insert_name, keys_of, names_insert, names_remove, names_view,
    remove_key, remove_name, set_key, bump_key, tally_bump, tally_get, tally_remove, tally_set,
    tally_view, GameMatchSummary, SummaryView,
};

verus! {

/// Why one item of the output carries no summary. It ends that item only.
#[derive(Debug, Clone, PartialEq, Eq)]
pub enum SummaryError {
    /// A match started while another was open.
    DoubleInit { event_id: u32 },
    /// A name was added that the open match already has.
    PlayerAlreadyRegistered { event_id: u32, client_id: u32, name: String },
    /// A player left under a name the open match does not have.
    PlayerNotRegistered { event_id: u32, client_id: u32, name: String },
    /// A match ended that was never started; `graceful` tells how it ended.
    GameNotStarted { event_id: u32, graceful: bool },
    /// An earlier stage found a violation of the event model.
    ModelViolation { event_id: u32, violation: EventModelViolations },
}

/// The mathematical model of a [SummaryError].
pub enum SummaryErrorView {
    DoubleInit { event_id: u32 },
    PlayerAlreadyRegistered { event_id: u32, client_id: u32, name: Seq<char> },
    PlayerNotRegistered { event_id: u32, client_id: u32, name: Seq<char> },
    GameNotStarted { event_id: u32, graceful: bool },
    ModelViolation { event_id: u32, violation: ViolationView },
}

impl View for SummaryError {
    type V = SummaryErrorView;

    open spec fn view(&self) -> SummaryErrorView {
        match self {
            SummaryError::DoubleInit { event_id } => SummaryErrorView::DoubleInit { event_id: *event_id },
            SummaryError::PlayerAlreadyRegistered { event_id, client_id, name } =>
                SummaryErrorView::PlayerAlreadyRegistered { event_id: *event_id, client_id: *client_id, name: name@ },
            SummaryError::PlayerNotRegistered { event_id, client_id, name } =>
                SummaryErrorView::PlayerNotRegistered { event_id: *event_id, client_id: *client_id, name: name@ },
            SummaryError::GameNotStarted { event_id, graceful } =>
                SummaryErrorView::GameNotStarted { event_id: *event_id, graceful: *graceful },
            SummaryError::ModelViolation { event_id, violation } =>
                SummaryErrorView::ModelViolation { event_id: *event_id, violation: violation@ },
        }
    }
}

/// One item of the output, as the model sees it.
pub type ItemView = Result<SummaryView, SummaryErrorView>;

pub open spec fn opt_summary_view(c: Option<GameMatchSummary>) -> Option<SummaryView> {
    match c {
        Some(s) => Some(s@),
        None => None,
    }
}

pub open spec fn result_view(r: Result<GameMatchSummary, SummaryError>) -> ItemView {
    match r {
        Ok(s) => Ok(s@),
        Err(e) => Err(e@),
    }
}

pub open spec fn item_view(r: Option<Result<GameMatchSummary, SummaryError>>) -> Option<ItemView> {
    match r {
        Some(x) => Some(result_view(x)),
        None => None,
    }
}

/// A player leaves the open match: its frag entry, if any, moves to the list of
/// departures; its name leaves the roster.
pub open spec fn leave(s: SummaryView, client_id: u32, name: Seq<char>) -> SummaryView {
    let had_frags = keys_of(s.kills).contains(name);
    let departures = if had_frags {
        let prior = match s.disconnected_players {
            Some(d) => d,
            None => Seq::empty(),
        };
        Some(prior.push((client_id, name, tally_get(s.kills, name))))
    } else {
        s.disconnected_players
    };
    SummaryView {
        players: names_remove(s.players, name),
        kills: tally_remove(s.kills, name),
        disconnected_players: departures,
        ..s
    }
}

/// A player of the open match changes its name; its frag entry, if any, follows it.
pub open spec fn rename(s: SummaryView, old_name: Seq<char>, new_name: Seq<char>) -> SummaryView {
    SummaryView {
        players: names_insert(names_remove(s.players, old_name), new_name),
        kills: if keys_of(s.kills).contains(old_name) {
            tally_set(tally_remove(s.kills, old_name), new_name, tally_get(s.kills, old_name))
        } else {
            s.kills
        },
        ..s
    }
}

/// A frag up (`up`) or down for `name`, counted in the total of kills.
pub open spec fn frag(s: SummaryView, name: Seq<char>, up: bool) -> SummaryView {
    SummaryView {
        total_kills: if s.total_kills < u32::MAX { (s.total_kills + 1) as u32 } else { s.total_kills },
        players: names_insert(s.players, name),
        kills: tally_bump(s.kills, name, up),
        ..s
    }
}

/// The summarizer's rule for one composite event: the open summary after it, if
/// any, and the item it yields, if any. Raw events are ignored, and so is every
/// event that needs an open summary while none is open. A new match while one
/// is open is an error and leaves the open match as it was.
pub open spec fn summarize_step(cur: Option<SummaryView>, event: CompositeView) -> (
    Option<SummaryView>,
    Option<ItemView>,
) {
    match event {
        CompositeView::GameEvent(_) => (cur, None),
        CompositeView::LogicEvent(l) => match l {
            LogicView::NewGame { quake3_event_id } => if cur is Some {
                (cur, Some(Err(SummaryErrorView::DoubleInit { event_id: quake3_event_id })))
            } else {
                (Some(SummaryView::fresh()), None)
            },
            LogicView::GameEndedManually { quake3_event_id } => match cur {
                Some(s) => (None, Some(Ok(s))),
                None => (None, Some(Err(SummaryErrorView::GameNotStarted { event_id: quake3_event_id, graceful: false }))),
            },
            LogicView::GameEndedGracefully { quake3_event_id } => match cur {
                Some(s) => (None, Some(Ok(s))),
                None => (None, Some(Err(SummaryErrorView::GameNotStarted { event_id: quake3_event_id, graceful: true }))),
            },
            LogicView::EventModelViolation { quake3_event_id, violation } =>
                (cur, Some(Err(SummaryErrorView::ModelViolation { event_id: quake3_event_id, violation }))),
            _ => match cur {
                None => (None, None),
                Some(s) => match l {
                    LogicView::AddPlayer { quake3_event_id, client_id, name } => if s.players.contains(name) {
                        (cur, Some(Err(SummaryErrorView::PlayerAlreadyRegistered { event_id: quake3_event_id, client_id, name })))
                    } else {
                        (Some(SummaryView { players: s.players.push(name), ..s }), None)
                    },
                    LogicView::RenamePlayer { old_name, new_name, .. } =>
                        (Some(rename(s, old_name, new_name)), None),
                    LogicView::DeletePlayer { quake3_event_id, client_id, name } =>
                        (Some(leave(s, client_id, name)), if s.players.contains(name) {
                            None
                        } else {
                            Some(Err(SummaryErrorView::PlayerNotRegistered { event_id: quake3_event_id, client_id, name }))
                        }),
                    LogicView::MeanOfDeath { mean_of_death, .. } => {
                        let prior = match s.means_of_death { Some(t) => t, None => Seq::empty() };
                        (Some(SummaryView { means_of_death: Some(tally_bump(prior, mean_of_death, true)), ..s }), None)
                    },
                    LogicView::IncFrags { name, .. } => (Some(frag(s, name, true)), None),
                    LogicView::DecFrags { name, .. } => (Some(frag(s, name, false)), None),
                    LogicView::ReportedScore { frags, name, .. } => {
                        let prior = match s.game_reported_scores { Some(t) => t, None => Seq::empty() };
                        (Some(SummaryView { game_reported_scores: Some(tally_set(prior, name, frags)), ..s }), None)
                    },
                    _ => (cur, None),
                },
            },
        },
    }
}

/// The summarizer's state: the summary of the open match, if one is open.
pub struct Summarizer {
    pub current: Option<GameMatchSummary>,
}

impl Summarizer {
    pub open spec fn wf(&self) -> bool {
        self.current matches Some(s) ==> s@.wf()
    }

    /// No match open.
    pub fn new() -> (r: Summarizer)
        ensures
            r.current is None,
            r.wf(),
    {
        Summarizer { current: None }
    }

    /// Applies one composite event to the open summary; yields a closed summary
    /// or an error for this item where the rule gives one.
    pub fn summarize(&mut self, event: CompositeEvent) -> (r: Option<Result<GameMatchSummary, SummaryError>>)
        requires
            old(self).wf(),
        ensures
            final(self).wf(),
            opt_summary_view(final(self).current) == summarize_step(opt_summary_view(old(self).current), event@).0,
            item_view(r) == summarize_step(opt_summary_view(old(self).current), event@).1,
    {
        let logic_event = match event {
            CompositeEvent::GameEvent(_) => {
                return None;
            },
            CompositeEvent::LogicEvent(l) => l,
        };
        match logic_event {
            LogicEvents::NewGame { quake3_event_id } => {
                if self.current.is_some() {
                    return Some(Err(SummaryError::DoubleInit { event_id: quake3_event_id }));
                }
                self.current = Some(GameMatchSummary::new());
                return None;
            },
            LogicEvents::GameEndedManually { quake3_event_id } => {
                return match self.current.take() {
                    Some(s) => Some(Ok(s)),
                    None => Some(Err(SummaryError::GameNotStarted { event_id: quake3_event_id, graceful: false })),
                };
            },
            LogicEvents::GameEndedGracefully { quake3_event_id } => {
                return match self.current.take() {
                    Some(s) => Some(Ok(s)),
                    None => Some(Err(SummaryError::GameNotStarted { event_id: quake3_event_id, graceful: true })),
                };
            },
            LogicEvents::EventModelViolation { quake3_event_id, violation } => {
                return Some(Err(SummaryError::ModelViolation { event_id: quake3_event_id, violation }));
            },
            _ => {},
        }
        let mut s = match self.current.take() {
            Some(s) => s,
            None => {
                return None;
            },
        };
        let ghost before = s@;
        let out = match logic_event {
            LogicEvents::AddPlayer { quake3_event_id, client_id, name } => {
                match find_name(&s.players, &name) {
                    Some(i) => {
                        assert(before.players[i as int] == name@);
                        Some(Err(SummaryError::PlayerAlreadyRegistered { event_id: quake3_event_id, client_id, name }))
                    },
                    None => {
                        s.players.push(name);
                        assert(names_view(s.players@) =~= before.players.push(name@));
                        None
                    },
                }
            },
            LogicEvents::RenamePlayer { old_name, new_name, .. } => {
                remove_name(&mut s.players, &old_name);
                insert_name(&mut s.players, &new_name);
                match remove_key(&mut s.kills, &old_name) {
                    Some(frags) => {
                        set_key(&mut s.kills, &new_name, frags);
                    },
                    None => {},
                }
                assert(s@ == rename(before, old_name@, new_name@));
                None
            },
            LogicEvents::DeletePlayer { quake3_event_id, client_id, name } => {
                match remove_key(&mut s.kills, &name) {
                    Some(frags) => {
                        let mut departures = match s.disconnected_players.take() {
                            Some(d) => d,
                            None => Vec::new(),
                        };
                        let ghost prior = departures_view(departures@);
                        proof {
                            if before.disconnected_players is None {
                                assert(prior =~= Seq::<(u32, Seq<char>, i32)>::empty());
                            }
                        }
                        departures.push((client_id, name.clone(), frags));
                        assert(departures_view(departures@) =~= prior.push((client_id, name@, frags)));
                        s.disconnected_players = Some(departures);
                    },
                    None => {},
                }
                let present = remove_name(&mut s.players, &name);
                assert(s@ == leave(before, client_id, name@));
                if present {
                    None
                } else {
                    Some(Err(SummaryError::PlayerNotRegistered { event_id: quake3_event_id, client_id, name }))
                }
            },
            LogicEvents::MeanOfDeath { mean_of_death, .. } => {
                let mut tally = match s.means_of_death.take() {
                    Some(t) => t,
                    None => Vec::new(),
                };
                proof {
                    if before.means_of_death is None {
                        assert(tally_view(tally@) =~= Seq::<(Seq<char>, i32)>::empty());
                    }
                }
                bump_key(&mut tally, &mean_of_death, true);
                s.means_of_death = Some(tally);
                assert(s@.means_of_death == Some(tally_bump(match before.means_of_death { Some(t) => t, None => Seq::empty() }, mean_of_death@, true)));
                None
            },
            LogicEvents::IncFrags { name, .. } => {
                if s.total_kills < u32::MAX {
                    s.total_kills = s.total_kills + 1;
                }
                insert_name(&mut s.players, &name);
                bump_key(&mut s.kills, &name, true);
                assert(s@ == frag(before, name@, true));
                None
            },
            LogicEvents::DecFrags { name, .. } => {
                if s.total_kills < u32::MAX {
                    s.total_kills = s.total_kills + 1;
                }
                insert_name(&mut s.players, &name);
                bump_key(&mut s.kills, &name, false);
                None
            },
            LogicEvents::ReportedScore { frags, name, .. } => {
                let mut tally = match s.game_reported_scores.take() {
                    Some(t) => t,
                    None => Vec::new(),
                };
                proof {
                    if before.game_reported_scores is None {
                        assert(tally_view(tally@) =~= Seq::<(Seq<char>, i32)>::empty());
                    }
                }
                set_key(&mut tally, &name, frags);
                s.game_reported_scores = Some(tally);
                None
            },
            _ => None,
        };
        self.current = Some(s);
        out
    }
}

} // verus!
