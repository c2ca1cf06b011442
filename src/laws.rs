//! Properties that hold across calls of the pipeline's rules.
use vstd::prelude::*;

use crate::config::EventAnalyserOperations;
use crate::dtos::{CompositeView, LogicView};
use crate::events::Quake3EventView;
use crate::report::{
    keys_of, names_insert, names_remove, tally_bump, tally_get, tally_remove, tally_set, SummaryView,
    Tally,
};
use crate::stages::{kills_spec, world_name};
use crate::summarizer::{frag, summarize_step};
use crate::summary_logic::{select_spec, stages, Pipeline, Stage};

verus! {

/// The sum of the values of a tally.
pub open spec fn tally_sum(t: Tally) -> int
    decreases t.len(),
{
    if t.len() == 0 {
        0
    } else {
        tally_sum(t.drop_last()) + t.last().1
    }
}

/// The open summary after each of `es` in turn, from `cur`.
pub open spec fn summarize_all(cur: Option<SummaryView>, es: Seq<CompositeView>) -> Option<SummaryView>
    decreases es.len(),
{
    if es.len() == 0 {
        cur
    } else {
        summarize_step(summarize_all(cur, es.drop_last()), es.last()).0
    }
}

proof fn lemma_index_of_unique<A>(s: Seq<A>, i: int)
    requires
        s.no_duplicates(),
        0 <= i < s.len(),
    ensures
        s.index_of(s[i]) == i,
        s.contains(s[i]),
{
    assert(s[i] == s[i]);
    let j = s.index_of(s[i]);
    assert(s[j] == s[i]);
}

proof fn lemma_tally_sum_update(t: Tally, i: int, v: (Seq<char>, i32))
    requires
        0 <= i < t.len(),
    ensures
        tally_sum(t.update(i, v)) == tally_sum(t) - t[i].1 + v.1,
    decreases t.len(),
{
    if i == t.len() - 1 {
        assert(t.update(i, v).drop_last() =~= t.drop_last());
    } else {
        lemma_tally_sum_update(t.drop_last(), i, v);
        assert(t.update(i, v).drop_last() =~= t.drop_last().update(i, v));
    }
}

proof fn lemma_tally_value_below_sum(t: Tally, i: int)
    requires
        0 <= i < t.len(),
        forall|j: int| 0 <= j < t.len() ==> t[j].1 >= 0,
    ensures
        t[i].1 <= tally_sum(t),
        tally_sum(t) >= 0,
    decreases t.len(),
{
    let d = t.drop_last();
    assert forall|j: int| 0 <= j < d.len() implies d[j].1 >= 0 by {
        assert(d[j] == t[j]);
    }
    assert(tally_sum(t) == tally_sum(d) + t.last().1);
    if d.len() > 0 {
        lemma_tally_value_below_sum(d, if i < d.len() { i } else { 0 });
    } else {
        assert(tally_sum(d) == 0);
    }
    if i < d.len() {
        assert(d[i] == t[i]);
    }
}

/// The events of a match that leave frag symmetry alone: frags up (kills by
/// players), new names, causes of death, reported scores and raw events.
pub open spec fn keeps_frag_symmetry(e: CompositeView) -> bool {
    match e {
        CompositeView::GameEvent(_) => true,
        CompositeView::LogicEvent(l) => l is IncFrags || l is AddPlayer || l is MeanOfDeath || l is ReportedScore,
    }
}

/// How many of `es` are frags up.
pub open spec fn frags_up(es: Seq<CompositeView>) -> nat
    decreases es.len(),
{
    if es.len() == 0 {
        0
    } else {
        frags_up(es.drop_last()) + if es.last() matches CompositeView::LogicEvent(LogicView::IncFrags { .. }) { 1nat } else { 0nat }
    }
}

/// In a match whose kills are all by players (none by `<world>`, so no frag
/// down), and where no player is renamed or leaves, the frag counts of the
/// summary add up to its total of kills, which is the number of kills; this as
/// long as the match has fewer than `i32::MAX` events.
pub proof fn frag_symmetry(es: Seq<CompositeView>)
    requires
        es.len() < i32::MAX,
        forall|i: int| 0 <= i < es.len() ==> keeps_frag_symmetry(#[trigger] es[i]),
    ensures
        summarize_all(Some(SummaryView::fresh()), es) matches Some(s)
            && tally_sum(s.kills) == s.total_kills
            && s.total_kills == frags_up(es),
{
    frag_symmetry_with_bounds(es);
}

proof fn frag_symmetry_with_bounds(es: Seq<CompositeView>)
    requires
        es.len() < i32::MAX,
        forall|i: int| 0 <= i < es.len() ==> keeps_frag_symmetry(#[trigger] es[i]),
    ensures
        summarize_all(Some(SummaryView::fresh()), es) matches Some(s)
            && s.wf()
            && tally_sum(s.kills) == s.total_kills
            && s.total_kills == frags_up(es)
            && frags_up(es) <= es.len()
            && forall|j: int| 0 <= j < s.kills.len() ==> s.kills[j].1 >= 0,
    decreases es.len(),
{
    if es.len() == 0 {
        assert(keys_of(Seq::<(Seq<char>, i32)>::empty()) =~= Seq::<Seq<char>>::empty());
    } else {
        let prefix = es.drop_last();
        assert forall|i: int| 0 <= i < prefix.len() implies keeps_frag_symmetry(#[trigger] prefix[i]) by {
            assert(prefix[i] == es[i]);
        }
        frag_symmetry_with_bounds(prefix);
        let s = summarize_all(Some(SummaryView::fresh()), prefix)->Some_0;
        let e = es.last();
        assert(es[es.len() - 1] == e);
        assert(keeps_frag_symmetry(e));
        let n = summarize_all(Some(SummaryView::fresh()), es)->Some_0;
        match e {
            CompositeView::GameEvent(_) => {},
            CompositeView::LogicEvent(l) => match l {
                LogicView::IncFrags { name, .. } => {
                    let keys = keys_of(s.kills);
                    if keys.contains(name) {
                        let i = keys.index_of(name);
                        lemma_tally_value_below_sum(s.kills, i);
                        lemma_tally_sum_update(s.kills, i, (name, (s.kills[i].1 + 1) as i32));
                        assert(keys_of(n.kills) =~= keys.update(i, name));
                        assert(keys.update(i, name) =~= keys);
                    } else {
                        assert(n.kills.drop_last() =~= s.kills);
                        assert(keys_of(n.kills) =~= keys.push(name));
                    }
                    lemma_names_insert(s.players, name);
                },
                LogicView::AddPlayer { name, .. } => {
                    lemma_names_insert(s.players, name);
                },
                LogicView::MeanOfDeath { mean_of_death, .. } => {
                    let prior = match s.means_of_death { Some(t) => t, None => Seq::empty() };
                    assert(keys_of(Seq::<(Seq<char>, i32)>::empty()) =~= Seq::<Seq<char>>::empty());
                    lemma_tally_bump_keys(prior, mean_of_death, true);
                    lemma_names_insert(keys_of(prior), mean_of_death);
                },
                LogicView::ReportedScore { frags, name, .. } => {
                    let prior = match s.game_reported_scores { Some(t) => t, None => Seq::empty() };
                    assert(keys_of(Seq::<(Seq<char>, i32)>::empty()) =~= Seq::<Seq<char>>::empty());
                    lemma_tally_set(prior, name, frags);
                    lemma_names_insert(keys_of(prior), name);
                },
                _ => {},
            },
        }
    }
}

/// A kill by `<world>` costs its victim exactly one frag and adds exactly one to
/// the total of kills; no other entry of the frag counts changes, none appears,
/// none goes. (Counts at the bounds of their types saturate: left out.)
pub proof fn world_kill_polarity(
    s: SummaryView,
    event_id: u32,
    killer_id: u32,
    victim_id: u32,
    reason_id: u32,
    victim_name: Seq<char>,
    reason_name: Seq<char>,
)
    requires
        s.wf(),
        s.total_kills < u32::MAX,
        tally_get(s.kills, victim_name) > i32::MIN,
    ensures
        ({
            let kill = CompositeView::GameEvent(Quake3EventView::Kill {
                event_id,
                killer_id,
                victim_id,
                reason_id,
                killer_name: world_name(),
                victim_name,
                reason_name,
            });
            let n = summarize_step(Some(s), kills_spec(kill)).0->Some_0;
            &&& summarize_step(Some(s), kills_spec(kill)).0 is Some
            &&& n.total_kills == s.total_kills + 1
            &&& keys_of(n.kills).contains(victim_name)
            &&& tally_get(n.kills, victim_name) == tally_get(s.kills, victim_name) - 1
            &&& forall|k: Seq<char>| k != victim_name ==> {
                &&& keys_of(n.kills).contains(k) == keys_of(s.kills).contains(k)
                &&& tally_get(n.kills, k) == tally_get(s.kills, k)
            }
        }),
{
    let kill = CompositeView::GameEvent(Quake3EventView::Kill {
        event_id,
        killer_id,
        victim_id,
        reason_id,
        killer_name: world_name(),
        victim_name,
        reason_name,
    });
    let n = summarize_step(Some(s), kills_spec(kill)).0->Some_0;
    let keys = keys_of(s.kills);
    if keys.contains(victim_name) {
        let i = keys.index_of(victim_name);
        assert(keys_of(n.kills) =~= keys.update(i, victim_name));
        assert(keys.update(i, victim_name) =~= keys);
        lemma_index_of_unique(keys, i);
        assert forall|k: Seq<char>| k != victim_name implies {
            &&& keys_of(n.kills).contains(k) == keys.contains(k)
            &&& tally_get(n.kills, k) == tally_get(s.kills, k)
        } by {
            if keys.contains(k) {
                assert(keys[keys.index_of(k)] == k);
            }
        }
    } else {
        assert(keys_of(n.kills) =~= keys.push(victim_name));
        let nk = keys_of(n.kills);
        assert(nk[keys.len() as int] == victim_name);
        assert(nk.no_duplicates()) by {
            assert forall|a: int, b: int| 0 <= a < nk.len() && 0 <= b < nk.len() && a != b implies nk[a] != nk[b] by {
                if a < keys.len() && b < keys.len() {
                } else if a < keys.len() {
                    assert(keys.contains(nk[a]) || nk[a] != victim_name) by {
                        assert(keys[a] == nk[a]);
                    }
                } else if b < keys.len() {
                    assert(keys[b] == nk[b]);
                }
            }
        }
        lemma_index_of_unique(nk, keys.len() as int);
        assert forall|k: Seq<char>| k != victim_name implies {
            &&& keys_of(n.kills).contains(k) == keys.contains(k)
            &&& tally_get(n.kills, k) == tally_get(s.kills, k)
        } by {
            if keys.contains(k) {
                let j = keys.index_of(k);
                assert(nk[j] == k);
                lemma_index_of_unique(nk, j);
            }
            if nk.contains(k) {
                let j = nk.index_of(k);
                assert(j < keys.len());
                assert(keys[j] == k);
            }
        }
    }
}

proof fn lemma_names_remove(s: Seq<Seq<char>>, n: Seq<char>)
    requires
        s.no_duplicates(),
    ensures
        names_remove(s, n).no_duplicates(),
        !names_remove(s, n).contains(n),
        forall|m: Seq<char>| m != n ==> names_remove(s, n).contains(m) == s.contains(m),
{
    if s.contains(n) {
        let i = s.index_of(n);
        let r = s.remove(i);
        assert forall|m: Seq<char>| r.contains(m) implies s.contains(m) && m != n by {
            let j = choose|j: int| 0 <= j < r.len() && r[j] == m;
            if j < i {
                assert(s[j] == m);
            } else {
                assert(s[j + 1] == m);
            }
        }
        assert forall|m: Seq<char>| m != n && s.contains(m) implies r.contains(m) by {
            let j = choose|j: int| 0 <= j < s.len() && s[j] == m;
            if j < i {
                assert(r[j] == m);
            } else {
                assert(j != i);
                assert(r[j - 1] == m);
            }
        }
    }
}

proof fn lemma_names_insert(s: Seq<Seq<char>>, n: Seq<char>)
    requires
        s.no_duplicates(),
    ensures
        names_insert(s, n).no_duplicates(),
        names_insert(s, n).contains(n),
        forall|m: Seq<char>| m != n ==> names_insert(s, n).contains(m) == s.contains(m),
{
    if !s.contains(n) {
        let r = s.push(n);
        assert(r[s.len() as int] == n);
        assert forall|m: Seq<char>| m != n && r.contains(m) implies s.contains(m) by {
            let j = choose|j: int| 0 <= j < r.len() && r[j] == m;
            assert(s[j] == m);
        }
        assert forall|m: Seq<char>| s.contains(m) implies r.contains(m) by {
            let j = choose|j: int| 0 <= j < s.len() && s[j] == m;
            assert(r[j] == m);
        }
    }
}

proof fn lemma_tally_remove(t: Tally, k: Seq<char>)
    requires
        keys_of(t).no_duplicates(),
    ensures
        keys_of(tally_remove(t, k)) == names_remove(keys_of(t), k),
        forall|m: Seq<char>| m != k ==> tally_get(tally_remove(t, k), m) == tally_get(t, m),
{
    let keys = keys_of(t);
    lemma_names_remove(keys, k);
    if keys.contains(k) {
        let i = keys.index_of(k);
        let r = t.remove(i);
        assert(keys_of(r) =~= keys.remove(i));
        assert forall|m: Seq<char>| m != k implies tally_get(r, m) == tally_get(t, m) by {
            if keys.contains(m) {
                let j = keys.index_of(m);
                assert(j != i);
                let j2 = if j < i { j } else { j - 1 };
                assert(keys_of(r)[j2] == m);
                lemma_index_of_unique(keys_of(r), j2);
            }
        }
    }
}

proof fn lemma_tally_set(t: Tally, k: Seq<char>, v: i32)
    requires
        keys_of(t).no_duplicates(),
    ensures
        keys_of(tally_set(t, k, v)) == names_insert(keys_of(t), k),
        tally_get(tally_set(t, k, v), k) == v,
        forall|m: Seq<char>| m != k ==> tally_get(tally_set(t, k, v), m) == tally_get(t, m),
{
    let keys = keys_of(t);
    lemma_names_insert(keys, k);
    if keys.contains(k) {
        let i = keys.index_of(k);
        let r = t.update(i, (k, v));
        assert(keys_of(r) =~= keys.update(i, k));
        assert(keys.update(i, k) =~= keys);
        lemma_index_of_unique(keys, i);
        assert forall|m: Seq<char>| m != k implies tally_get(r, m) == tally_get(t, m) by {
            if keys.contains(m) {
                assert(keys[keys.index_of(m)] == m);
            }
        }
    } else {
        let r = t.push((k, v));
        assert(keys_of(r) =~= keys.push(k));
        lemma_index_of_unique(keys_of(r), keys.len() as int);
        assert forall|m: Seq<char>| m != k implies tally_get(r, m) == tally_get(t, m) by {
            if keys.contains(m) {
                let j = keys.index_of(m);
                assert(keys_of(r)[j] == m);
                lemma_index_of_unique(keys_of(r), j);
            }
        }
    }
}

/// A rename carries the player's exact frag count over to the new name and
/// drops the old key; afterwards the roster holds the new name and not the old
/// one; every other name keeps its place on the roster and its frag count.
/// (A rename to the same name changes nothing: left out.)
pub proof fn rename_preserves_score(
    s: SummaryView,
    event_id: u32,
    client_id: u32,
    old_name: Seq<char>,
    new_name: Seq<char>,
)
    requires
        s.wf(),
        old_name != new_name,
    ensures
        ({
            let rename = CompositeView::LogicEvent(LogicView::RenamePlayer {
                quake3_event_id: event_id,
                client_id,
                old_name,
                new_name,
            });
            let n = summarize_step(Some(s), rename).0->Some_0;
            &&& summarize_step(Some(s), rename).0 is Some
            &&& summarize_step(Some(s), rename).1 is None
            &&& n.wf()
            &&& keys_of(s.kills).contains(old_name) ==> {
                &&& keys_of(n.kills).contains(new_name)
                &&& tally_get(n.kills, new_name) == tally_get(s.kills, old_name)
            }
            &&& !keys_of(s.kills).contains(old_name) ==> n.kills == s.kills
            &&& !keys_of(n.kills).contains(old_name)
            &&& forall|k: Seq<char>| k != old_name && k != new_name ==> {
                &&& keys_of(n.kills).contains(k) == keys_of(s.kills).contains(k)
                &&& tally_get(n.kills, k) == tally_get(s.kills, k)
                &&& n.players.contains(k) == s.players.contains(k)
            }
            &&& n.players.contains(new_name)
            &&& !n.players.contains(old_name)
            &&& n.total_kills == s.total_kills
        }),
{
    lemma_names_remove(s.players, old_name);
    lemma_names_insert(names_remove(s.players, old_name), new_name);
    if keys_of(s.kills).contains(old_name) {
        lemma_tally_remove(s.kills, old_name);
        lemma_names_remove(keys_of(s.kills), old_name);
        let removed = tally_remove(s.kills, old_name);
        lemma_tally_set(removed, new_name, tally_get(s.kills, old_name));
        lemma_names_insert(keys_of(removed), new_name);
    }
}

/// A player who leaves with a frag entry goes from the roster and from the frag
/// counts, and `(id, name, frags)` is appended as it stood to the departures;
/// the total of kills does not change.
pub proof fn disconnect_bookkeeping(s: SummaryView, event_id: u32, client_id: u32, name: Seq<char>)
    requires
        s.wf(),
        keys_of(s.kills).contains(name),
    ensures
        ({
            let leave = CompositeView::LogicEvent(LogicView::DeletePlayer { quake3_event_id: event_id, client_id, name });
            let n = summarize_step(Some(s), leave).0->Some_0;
            let prior = match s.disconnected_players {
                Some(d) => d,
                None => Seq::empty(),
            };
            &&& summarize_step(Some(s), leave).0 is Some
            &&& !n.players.contains(name)
            &&& !keys_of(n.kills).contains(name)
            &&& n.disconnected_players == Some(prior.push((client_id, name, tally_get(s.kills, name))))
            &&& n.total_kills == s.total_kills
        }),
{
    lemma_names_remove(s.players, name);
    lemma_tally_remove(s.kills, name);
    lemma_names_remove(keys_of(s.kills), name);
}

/// The position of a stage in the fixed relative order of the chain.
pub open spec fn stage_rank(s: Stage) -> int {
    match s {
        Stage::Composer => 0,
        Stage::MeansOfDeath => 1,
        Stage::Kills => 2,
        Stage::PlayerIdentity => 3,
        Stage::ReportedScores => 4,
        Stage::Summarizer => 5,
    }
}

/// The same set of analyses always selects the same pipeline, hence the same
/// chain of stages, whatever the order or repetition in which it is listed.
pub proof fn pipeline_selection_is_stable(a: Seq<EventAnalyserOperations>, b: Seq<EventAnalyserOperations>)
    requires
        a.to_set() == b.to_set(),
    ensures
        select_spec(a.to_set()) == select_spec(b.to_set()),
        select_spec(a.to_set()) matches Some(p) ==> stages(p) == stages(select_spec(b.to_set())->Some_0),
{
}

/// Every chain starts with the composer, runs the kills analysis, ends with the
/// summarizer, and keeps its stages in the fixed relative order.
pub proof fn stage_order(p: Pipeline)
    ensures
        stages(p)[0] == Stage::Composer,
        stages(p).last() == Stage::Summarizer,
        stages(p).contains(Stage::Kills),
        forall|i: int, j: int| 0 <= i < j < stages(p).len() ==> stage_rank(stages(p)[i]) < stage_rank(stages(p)[j]),
{
    let s = stages(p);
    match p {
        Pipeline::Kills => {
            assert(s =~= seq![Stage::Composer, Stage::Kills, Stage::Summarizer]);
            assert(s[1] == Stage::Kills);
        },
        Pipeline::KillsAndPlayerIds => {
            assert(s =~= seq![Stage::Composer, Stage::Kills, Stage::PlayerIdentity, Stage::Summarizer]);
            assert(s[1] == Stage::Kills);
        },
        Pipeline::KillsAndReportedScores => {
            assert(s =~= seq![Stage::Composer, Stage::Kills, Stage::ReportedScores, Stage::Summarizer]);
            assert(s[1] == Stage::Kills);
        },
        Pipeline::KillsPlayerIdsAndReportedScores => {
            assert(s =~= seq![Stage::Composer, Stage::Kills, Stage::PlayerIdentity, Stage::ReportedScores, Stage::Summarizer]);
            assert(s[1] == Stage::Kills);
        },
        Pipeline::Full => {
            assert(s =~= seq![Stage::Composer, Stage::MeansOfDeath, Stage::Kills, Stage::PlayerIdentity, Stage::ReportedScores, Stage::Summarizer]);
            assert(s[2] == Stage::Kills);
        },
    }
}

proof fn lemma_tally_bump_keys(t: Tally, k: Seq<char>, up: bool)
    requires
        keys_of(t).no_duplicates(),
    ensures
        keys_of(tally_bump(t, k, up)) == names_insert(keys_of(t), k),
{
    let keys = keys_of(t);
    if keys.contains(k) {
        let i = keys.index_of(k);
        assert(keys_of(tally_bump(t, k, up)) =~= keys.update(i, k));
        assert(keys.update(i, k) =~= keys);
    } else {
        assert(keys_of(tally_bump(t, k, up)) =~= keys.push(k));
    }
}

proof fn lemma_covers_after_frag(s: SummaryView, name: Seq<char>, up: bool)
    requires
        s.wf(),
        roster_covers_frag_counts(s),
    ensures
        roster_covers_frag_counts(frag(s, name, up)),
{
    lemma_names_insert(s.players, name);
    lemma_tally_bump_keys(s.kills, name, up);
    lemma_names_insert(keys_of(s.kills), name);
    let n = frag(s, name, up);
    assert forall|k: Seq<char>| keys_of(n.kills).contains(k) implies n.players.contains(k) by {
        assert(names_insert(keys_of(s.kills), name).contains(k));
        if k != name {
            assert(keys_of(s.kills).contains(k));
            assert(s.players.contains(k));
        }
    }
}

/// Every name with a frag count is on the roster.
pub open spec fn roster_covers_frag_counts(s: SummaryView) -> bool {
    forall|k: Seq<char>| keys_of(s.kills).contains(k) ==> s.players.contains(k)
}

/// The roster covers the frag counts when a match opens, and every event keeps
/// it so: a player can be on the roster with no frag count, never the other way.
pub proof fn roster_covers_frag_counts_always(s: SummaryView, e: CompositeView)
    requires
        s.wf(),
        roster_covers_frag_counts(s),
    ensures
        roster_covers_frag_counts(SummaryView::fresh()),
        summarize_step(Some(s), e).0 matches Some(n) ==> roster_covers_frag_counts(n),
{
    assert(keys_of(Seq::<(Seq<char>, i32)>::empty()) =~= Seq::<Seq<char>>::empty());
    match e {
        CompositeView::LogicEvent(l) => match l {
            LogicView::AddPlayer { name, .. } => {
                if !s.players.contains(name) {
                    let n = s.players.push(name);
                    assert forall|k: Seq<char>| s.players.contains(k) implies n.contains(k) by {
                        let j = choose|j: int| 0 <= j < s.players.len() && s.players[j] == k;
                        assert(n[j] == k);
                    }
                }
            },
            LogicView::RenamePlayer { old_name, new_name, .. } => {
                lemma_names_remove(s.players, old_name);
                lemma_names_insert(names_remove(s.players, old_name), new_name);
                if keys_of(s.kills).contains(old_name) {
                    lemma_tally_remove(s.kills, old_name);
                    lemma_names_remove(keys_of(s.kills), old_name);
                    let removed = tally_remove(s.kills, old_name);
                    lemma_tally_set(removed, new_name, tally_get(s.kills, old_name));
                    lemma_names_insert(keys_of(removed), new_name);
                }
                let n = summarize_step(Some(s), e).0->Some_0;
                assert forall|k: Seq<char>| keys_of(n.kills).contains(k) implies n.players.contains(k) by {
                    if k != new_name {
                        assert(keys_of(s.kills).contains(k));
                        assert(s.players.contains(k));
                    }
                }
            },
            LogicView::DeletePlayer { name, .. } => {
                lemma_names_remove(s.players, name);
                lemma_tally_remove(s.kills, name);
                lemma_names_remove(keys_of(s.kills), name);
                let n = summarize_step(Some(s), e).0->Some_0;
                assert(n.kills == tally_remove(s.kills, name));
                assert(n.players == names_remove(s.players, name));
                assert forall|k: Seq<char>| keys_of(n.kills).contains(k) implies n.players.contains(k) by {
                    assert(names_remove(keys_of(s.kills), name).contains(k));
                    assert(k != name);
                    assert(keys_of(s.kills).contains(k));
                    assert(s.players.contains(k));
                }
            },
            LogicView::IncFrags { name, .. } => {
                lemma_covers_after_frag(s, name, true);
            },
            LogicView::DecFrags { name, .. } => {
                lemma_covers_after_frag(s, name, false);
            },
            _ => {},
        },
        _ => {},
    }
}

} // verus!
