//! The per-match summary and the collections it is made of.
use vstd::prelude::*;

verus! {

/// A name-keyed tally, as the mathematical model sees it: pairs in the order
/// their keys first appeared.
pub type Tally = Seq<(Seq<char>, i32)>;

/// What one match amounted to.
#[derive(Debug, Clone, PartialEq, Eq)]
pub struct GameMatchSummary {
    /// Number of kills, `<world>` kills included.
    pub total_kills: u32,
    /// Names of the players present when the match ended, without repetition.
    pub players: Vec<String>,
    /// Frag count of each player, keyed by its current name.
    pub kills: Vec<(String, i32)>,
    /// Number of deaths by each cause, when that analysis runs.
    pub means_of_death: Option<Vec<(String, i32)>>,
    /// Frags as the server reported them, when that analysis runs.
    pub game_reported_scores: Option<Vec<(String, i32)>>,
    /// `(id, name, frags)` of each player that left with a frag entry, in order of leaving.
    pub disconnected_players: Option<Vec<(u32, String, i32)>>,
}

/// The mathematical model of a [GameMatchSummary].
pub struct SummaryView {
    pub total_kills: u32,
    pub players: Seq<Seq<char>>,
    pub kills: Tally,
    pub means_of_death: Option<Tally>,
    pub game_reported_scores: Option<Tally>,
    pub disconnected_players: Option<Seq<(u32, Seq<char>, i32)>>,
}

pub open spec fn names_view(v: Seq<String>) -> Seq<Seq<char>> {
    v.map_values(|s: String| s@)
}

pub open spec fn tally_view(v: Seq<(String, i32)>) -> Tally {
    v.map_values(|e: (String, i32)| (e.0@, e.1))
}

pub open spec fn departures_view(v: Seq<(u32, String, i32)>) -> Seq<(u32, Seq<char>, i32)> {
    v.map_values(|e: (u32, String, i32)| (e.0, e.1@, e.2))
}

pub open spec fn opt_tally_view(v: Option<Vec<(String, i32)>>) -> Option<Tally> {
    match v {
        Some(t) => Some(tally_view(t@)),
        None => None,
    }
}

impl View for GameMatchSummary {
    type V = SummaryView;

    open spec fn view(&self) -> SummaryView {
        SummaryView {
            total_kills: self.total_kills,
            players: names_view(self.players@),
            kills: tally_view(self.kills@),
            means_of_death: opt_tally_view(self.means_of_death),
            game_reported_scores: opt_tally_view(self.game_reported_scores),
            disconnected_players: match self.disconnected_players {
                Some(d) => Some(departures_view(d@)),
                None => None,
            },
        }
    }
}

/// The keys of a tally, in order.
pub open spec fn keys_of(t: Tally) -> Seq<Seq<char>> {
    t.map_values(|e: (Seq<char>, i32)| e.0)
}

/// A tally whose keys are pairwise distinct.
pub open spec fn tally_wf(t: Tally) -> bool {
    keys_of(t).no_duplicates()
}

/// The value under `k`, or 0 where `k` has no entry.
pub open spec fn tally_get(t: Tally, k: Seq<char>) -> i32 {
    if keys_of(t).contains(k) {
        t[keys_of(t).index_of(k)].1
    } else {
        0
    }
}

/// One up or one down, saturating at the bounds of `i32`.
pub open spec fn step_count(v: i32, up: bool) -> i32 {
    if up {
        if v < i32::MAX { (v + 1) as i32 } else { v }
    } else {
        if v > i32::MIN { (v - 1) as i32 } else { v }
    }
}

/// The entry under `k` moved one up or down; an absent entry counts from 0.
pub open spec fn tally_bump(t: Tally, k: Seq<char>, up: bool) -> Tally {
    if keys_of(t).contains(k) {
        let i = keys_of(t).index_of(k);
        t.update(i, (k, step_count(t[i].1, up)))
    } else {
        t.push((k, step_count(0, up)))
    }
}

/// The entry under `k` set to `v`.
pub open spec fn tally_set(t: Tally, k: Seq<char>, v: i32) -> Tally {
    if keys_of(t).contains(k) {
        t.update(keys_of(t).index_of(k), (k, v))
    } else {
        t.push((k, v))
    }
}

/// The entry under `k` taken out.
pub open spec fn tally_remove(t: Tally, k: Seq<char>) -> Tally {
    if keys_of(t).contains(k) {
        t.remove(keys_of(t).index_of(k))
    } else {
        t
    }
}

/// `n` added to a list of distinct names.
pub open spec fn names_insert(s: Seq<Seq<char>>, n: Seq<char>) -> Seq<Seq<char>> {
    if s.contains(n) {
        s
    } else {
        s.push(n)
    }
}

/// `n` taken out of a list of distinct names.
pub open spec fn names_remove(s: Seq<Seq<char>>, n: Seq<char>) -> Seq<Seq<char>> {
    if s.contains(n) {
        s.remove(s.index_of(n))
    } else {
        s
    }
}

impl SummaryView {
    /// The summary of a match in which nothing happened yet.
    pub open spec fn fresh() -> SummaryView {
        SummaryView {
            total_kills: 0,
            players: Seq::empty(),
            kills: Seq::empty(),
            means_of_death: None,
            game_reported_scores: None,
            disconnected_players: None,
        }
    }

    /// Names and keys are without repetition.
    pub open spec fn wf(self) -> bool {
        &&& self.players.no_duplicates()
        &&& tally_wf(self.kills)
        &&& (self.means_of_death matches Some(t) ==> tally_wf(t))
        &&& (self.game_reported_scores matches Some(t) ==> tally_wf(t))
    }
}

impl GameMatchSummary {
    /// A summary with no kills, players or optional fields.
    pub fn new() -> (r: GameMatchSummary)
        ensures
            r@ == SummaryView::fresh(),
    {
        let r = GameMatchSummary {
            total_kills: 0,
            players: Vec::new(),
            kills: Vec::new(),
            means_of_death: None,
            game_reported_scores: None,
            disconnected_players: None,
        };
        assert(r@.players =~= Seq::<Seq<char>>::empty());
        assert(r@.kills =~= Seq::<(Seq<char>, i32)>::empty());
        r
    }
}

/// The position of `n` among `v`.
pub fn find_name(v: &Vec<String>, n: &String) -> (r: Option<usize>)
    ensures
        match r {
            Some(i) => i < v.len() && v@[i as int]@ == n@,
            None => !names_view(v@).contains(n@),
        },
{
    let mut i: usize = 0;
    while i < v.len()
        invariant
            i <= v.len(),
            forall|j: int| 0 <= j < i ==> v@[j]@ != n@,
        decreases v.len() - i,
    {
        if v[i] == *n {
            return Some(i);
        }
        i += 1;
    }
    None
}

/// The position of the entry keyed `k` in `t`.
pub fn find_key(t: &Vec<(String, i32)>, k: &String) -> (r: Option<usize>)
    ensures
        match r {
            Some(i) => i < t.len() && t@[i as int].0@ == k@,
            None => !keys_of(tally_view(t@)).contains(k@),
        },
{
    let mut i: usize = 0;
    while i < t.len()
        invariant
            i <= t.len(),
            forall|j: int| 0 <= j < i ==> t@[j].0@ != k@,
        decreases t.len() - i,
    {
        if t[i].0 == *k {
            return Some(i);
        }
        i += 1;
    }
    None
}

/// Adds `n` to a list of distinct names.
pub fn insert_name(v: &mut Vec<String>, n: &String)
    requires
        names_view(old(v)@).no_duplicates(),
    ensures
        names_view(final(v)@) == names_insert(names_view(old(v)@), n@),
        names_view(final(v)@).no_duplicates(),
{
    match find_name(v, n) {
        Some(i) => {
            assert(names_view(v@)[i as int] == n@);
        },
        None => {
            v.push(n.clone());
            assert(names_view(v@) =~= names_view(old(v)@).push(n@));
        },
    }
}

/// Takes `n` out of a list of distinct names; true if it was there.
pub fn remove_name(v: &mut Vec<String>, n: &String) -> (r: bool)
    requires
        names_view(old(v)@).no_duplicates(),
    ensures
        r == names_view(old(v)@).contains(n@),
        names_view(final(v)@) == names_remove(names_view(old(v)@), n@),
        names_view(final(v)@).no_duplicates(),
{
    match find_name(v, n) {
        Some(i) => {
            let ghost s = names_view(v@);
            assert(s[i as int] == n@);
            assert(s.index_of(n@) == i);
            v.remove(i);
            assert(names_view(v@) =~= s.remove(i as int));
            true
        },
        None => false,
    }
}

/// Moves the entry keyed `k` one up or down, creating it from 0 if absent.
pub fn bump_key(t: &mut Vec<(String, i32)>, k: &String, up: bool)
    requires
        tally_wf(tally_view(old(t)@)),
    ensures
        tally_view(final(t)@) == tally_bump(tally_view(old(t)@), k@, up),
        tally_wf(tally_view(final(t)@)),
{
    let ghost s = tally_view(t@);
    match find_key(t, k) {
        Some(i) => {
            assert(keys_of(s)[i as int] == k@);
            assert(keys_of(s).index_of(k@) == i);
            let v = t[i].1;
            let nv = if up {
                if v < i32::MAX { v + 1 } else { v }
            } else {
                if v > i32::MIN { v - 1 } else { v }
            };
            t.set(i, (k.clone(), nv));
            assert(tally_view(t@) =~= s.update(i as int, (k@, nv)));
            assert(keys_of(tally_view(t@)) =~= keys_of(s));
        },
        None => {
            let nv: i32 = if up { 1 } else { -1 };
            t.push((k.clone(), nv));
            assert(tally_view(t@) =~= s.push((k@, nv)));
            assert(keys_of(tally_view(t@)) =~= keys_of(s).push(k@));
        },
    }
}

/// Sets the entry keyed `k` to `v`.
pub fn set_key(t: &mut Vec<(String, i32)>, k: &String, v: i32)
    requires
        tally_wf(tally_view(old(t)@)),
    ensures
        tally_view(final(t)@) == tally_set(tally_view(old(t)@), k@, v),
        tally_wf(tally_view(final(t)@)),
{
    let ghost s = tally_view(t@);
    match find_key(t, k) {
        Some(i) => {
            assert(keys_of(s)[i as int] == k@);
            assert(keys_of(s).index_of(k@) == i);
            t.set(i, (k.clone(), v));
            assert(tally_view(t@) =~= s.update(i as int, (k@, v)));
            assert(keys_of(tally_view(t@)) =~= keys_of(s));
        },
        None => {
            t.push((k.clone(), v));
            assert(tally_view(t@) =~= s.push((k@, v)));
            assert(keys_of(tally_view(t@)) =~= keys_of(s).push(k@));
        },
    }
}

/// Takes out the entry keyed `k`, returning its value if there was one.
pub fn remove_key(t: &mut Vec<(String, i32)>, k: &String) -> (r: Option<i32>)
    requires
        tally_wf(tally_view(old(t)@)),
    ensures
        r == (if keys_of(tally_view(old(t)@)).contains(k@) {
            Some(tally_get(tally_view(old(t)@), k@))
        } else {
            None::<i32>
        }),
        tally_view(final(t)@) == tally_remove(tally_view(old(t)@), k@),
        tally_wf(tally_view(final(t)@)),
{
    let ghost s = tally_view(t@);
    match find_key(t, k) {
        Some(i) => {
            assert(keys_of(s)[i as int] == k@);
            assert(keys_of(s).index_of(k@) == i);
            let v = t[i].1;
            t.remove(i);
            assert(tally_view(t@) =~= s.remove(i as int));
            assert(keys_of(tally_view(t@)) =~= keys_of(s).remove(i as int));
            Some(v)
        },
        None => None,
    }
}

} // verus!
