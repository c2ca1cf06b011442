//! Name order: the order in which names and tallies are rendered.
use vstd::prelude::*;
use vstd::string::*;

use crate::report::{names_view, tally_view, GameMatchSummary};

verus! {

broadcast use vstd::seq_lib::group_to_multiset_ensures;

/// `a` comes strictly before `b`: at the first character where they differ, the
/// one of `a` has the lower code point, or `a` is a proper prefix of `b`.
pub open spec fn text_lt(a: Seq<char>, b: Seq<char>) -> bool
    decreases a.len(),
{
    if a.len() == 0 {
        b.len() > 0
    } else if b.len() == 0 {
        false
    } else if a[0] != b[0] {
        (a[0] as int) < (b[0] as int)
    } else {
        text_lt(a.skip(1), b.skip(1))
    }
}

pub open spec fn text_le(a: Seq<char>, b: Seq<char>) -> bool {
    a == b || text_lt(a, b)
}

proof fn lemma_text_total(a: Seq<char>, b: Seq<char>)
    ensures
        a == b || text_lt(a, b) || text_lt(b, a),
    decreases a.len(),
{
    if a.len() == 0 && b.len() == 0 {
        assert(a =~= b);
    } else if a.len() > 0 && b.len() > 0 && a[0] != b[0] {
    } else if a.len() > 0 && b.len() > 0 && a[0] == b[0] {
        lemma_text_total(a.skip(1), b.skip(1));
        if a.skip(1) == b.skip(1) {
            assert(a.skip(1).len() == a.len() - 1);
            assert(b.skip(1).len() == b.len() - 1);
            assert(a.len() == b.len());
            assert forall|i: int| 0 <= i < a.len() implies a[i] == b[i] by {
                if i > 0 {
                    assert(a[i] == a.skip(1)[i - 1]);
                    assert(b[i] == b.skip(1)[i - 1]);
                }
            }
            assert(a.len() == b.len());
            assert(a =~= b);
        }
    }
}

proof fn lemma_text_lt_trans(a: Seq<char>, b: Seq<char>, c: Seq<char>)
    requires
        text_lt(a, b),
        text_lt(b, c),
    ensures
        text_lt(a, c),
    decreases a.len(),
{
    if a.len() > 0 && a[0] == b[0] && b[0] == c[0] {
        lemma_text_lt_trans(a.skip(1), b.skip(1), c.skip(1));
    }
}

/// True when `a` comes strictly before `b`.
pub fn text_less(a: &str, b: &str) -> (r: bool)
    ensures
        r == text_lt(a@, b@),
{
    let n = a.unicode_len();
    let m = b.unicode_len();
    let mut i: usize = 0;
    assert(a@.skip(0) =~= a@);
    assert(b@.skip(0) =~= b@);
    loop
        invariant
            n == a@.len(),
            m == b@.len(),
            i <= n,
            i <= m,
            text_lt(a@, b@) == text_lt(a@.skip(i as int), b@.skip(i as int)),
        decreases n - i,
    {
        if i == n {
            return i < m;
        }
        if i == m {
            return false;
        }
        let x = a.get_char(i);
        let y = b.get_char(i);
        assert(a@.skip(i as int)[0] == x);
        assert(b@.skip(i as int)[0] == y);
        if x != y {
            return (x as u32) < (y as u32);
        }
        assert(a@.skip(i as int).skip(1) =~= a@.skip(i + 1));
        assert(b@.skip(i as int).skip(1) =~= b@.skip(i + 1));
        i += 1;
    }
}

pub open spec fn names_sorted(s: Seq<Seq<char>>) -> bool {
    forall|i: int, j: int| 0 <= i < j < s.len() ==> text_le(s[i], s[j])
}

pub open spec fn tally_sorted(s: Seq<(Seq<char>, i32)>) -> bool {
    forall|i: int, j: int| 0 <= i < j < s.len() ==> text_le(s[i].0, s[j].0)
}

fn least_name(v: &Vec<String>) -> (m: usize)
    requires
        v.len() > 0,
    ensures
        m < v.len(),
        forall|j: int| 0 <= j < v.len() ==> text_le(v@[m as int]@, #[trigger] v@[j]@),
{
    let mut m: usize = 0;
    let mut i: usize = 1;
    while i < v.len()
        invariant
            m < i <= v.len(),
            forall|j: int| 0 <= j < i ==> text_le(v@[m as int]@, #[trigger] v@[j]@),
        decreases v.len() - i,
    {
        if text_less(v[i].as_str(), v[m].as_str()) {
            assert forall|j: int| 0 <= j < i implies text_le(v@[i as int]@, #[trigger] v@[j]@) by {
                if v@[m as int]@ != v@[j]@ {
                    lemma_text_lt_trans(v@[i as int]@, v@[m as int]@, v@[j]@);
                }
            }
            m = i;
        } else {
            proof {
                lemma_text_total(v@[i as int]@, v@[m as int]@);
            }
        }
        i += 1;
    }
    m
}

fn least_key(v: &Vec<(String, i32)>) -> (m: usize)
    requires
        v.len() > 0,
    ensures
        m < v.len(),
        forall|j: int| 0 <= j < v.len() ==> text_le(v@[m as int].0@, #[trigger] v@[j].0@),
{
    let mut m: usize = 0;
    let mut i: usize = 1;
    while i < v.len()
        invariant
            m < i <= v.len(),
            forall|j: int| 0 <= j < i ==> text_le(v@[m as int].0@, #[trigger] v@[j].0@),
        decreases v.len() - i,
    {
        if text_less(v[i].0.as_str(), v[m].0.as_str()) {
            assert forall|j: int| 0 <= j < i implies text_le(v@[i as int].0@, #[trigger] v@[j].0@) by {
                if v@[m as int].0@ != v@[j].0@ {
                    lemma_text_lt_trans(v@[i as int].0@, v@[m as int].0@, v@[j].0@);
                }
            }
            m = i;
        } else {
            proof {
                lemma_text_total(v@[i as int].0@, v@[m as int].0@);
            }
        }
        i += 1;
    }
    m
}

/// The names in name order.
pub fn sort_names(v: Vec<String>) -> (r: Vec<String>)
    ensures
        names_view(r@).to_multiset() == names_view(v@).to_multiset(),
        names_sorted(names_view(r@)),
{
    let ghost original = names_view(v@);
    let mut rest = v;
    let mut out: Vec<String> = Vec::new();
    assert(names_view(out@) =~= Seq::<Seq<char>>::empty());
    while rest.len() > 0
        invariant
            names_view(out@).to_multiset().add(names_view(rest@).to_multiset()) == original.to_multiset(),
            names_sorted(names_view(out@)),
            forall|i: int, j: int| 0 <= i < out.len() && 0 <= j < rest.len() ==> text_le(#[trigger] out@[i]@, #[trigger] rest@[j]@),
        decreases rest.len(),
    {
        let m = least_name(&rest);
        let ghost before_rest = names_view(rest@);
        let ghost before_out = names_view(out@);
        let ghost rest_items = rest@;
        let ghost out_items = out@;
        let x = rest.remove(m);
        assert(names_view(rest@) =~= before_rest.remove(m as int));
        assert(before_rest[m as int] == x@);
        out.push(x);
        assert(names_view(out@) =~= before_out.push(x@));
        assert(names_view(out@).to_multiset().add(names_view(rest@).to_multiset()) =~= original.to_multiset());
        assert forall|i: int, j: int| 0 <= i < out.len() && 0 <= j < rest.len() implies text_le(#[trigger] out@[i]@, #[trigger] rest@[j]@) by {
            let k = if j < m { j } else { j + 1 };
            assert(rest@[j] == rest_items[k]);
            if i < out_items.len() {
                assert(out@[i] == out_items[i]);
                assert(text_le(out_items[i]@, rest_items[k]@));
            } else {
                assert(out@[i] == rest_items[m as int]);
                assert(text_le(rest_items[m as int]@, rest_items[k]@));
            }
        }
        assert forall|i: int, j: int| 0 <= i < j < out.len() implies text_le(names_view(out@)[i], names_view(out@)[j]) by {
            if j < out_items.len() {
                assert(names_view(out@)[i] == before_out[i]);
                assert(names_view(out@)[j] == before_out[j]);
            } else {
                assert(out@[i] == out_items[i]);
                assert(text_le(out_items[i]@, rest_items[m as int]@));
            }
        }
    }
    assert(names_view(rest@) =~= Seq::<Seq<char>>::empty());
    out
}

/// The entries of a tally in name order of their keys.
pub fn sort_tally(v: Vec<(String, i32)>) -> (r: Vec<(String, i32)>)
    ensures
        tally_view(r@).to_multiset() == tally_view(v@).to_multiset(),
        tally_sorted(tally_view(r@)),
{
    let ghost original = tally_view(v@);
    let mut rest = v;
    let mut out: Vec<(String, i32)> = Vec::new();
    assert(tally_view(out@) =~= Seq::<(Seq<char>, i32)>::empty());
    while rest.len() > 0
        invariant
            tally_view(out@).to_multiset().add(tally_view(rest@).to_multiset()) == original.to_multiset(),
            tally_sorted(tally_view(out@)),
            forall|i: int, j: int| 0 <= i < out.len() && 0 <= j < rest.len() ==> text_le(#[trigger] out@[i].0@, #[trigger] rest@[j].0@),
        decreases rest.len(),
    {
        let m = least_key(&rest);
        let ghost before_rest = tally_view(rest@);
        let ghost before_out = tally_view(out@);
        let ghost rest_items = rest@;
        let ghost out_items = out@;
        let x = rest.remove(m);
        assert(tally_view(rest@) =~= before_rest.remove(m as int));
        assert(before_rest[m as int] == (x.0@, x.1));
        out.push(x);
        assert(tally_view(out@) =~= before_out.push((x.0@, x.1)));
        assert(tally_view(out@).to_multiset().add(tally_view(rest@).to_multiset()) =~= original.to_multiset());
        assert forall|i: int, j: int| 0 <= i < out.len() && 0 <= j < rest.len() implies text_le(#[trigger] out@[i].0@, #[trigger] rest@[j].0@) by {
            let k = if j < m { j } else { j + 1 };
            assert(rest@[j] == rest_items[k]);
            if i < out_items.len() {
                assert(out@[i] == out_items[i]);
                assert(text_le(out_items[i].0@, rest_items[k].0@));
            } else {
                assert(out@[i] == rest_items[m as int]);
                assert(text_le(rest_items[m as int].0@, rest_items[k].0@));
            }
        }
        assert forall|i: int, j: int| 0 <= i < j < out.len() implies text_le(tally_view(out@)[i].0, tally_view(out@)[j].0) by {
            if j < out_items.len() {
                assert(tally_view(out@)[i] == before_out[i]);
                assert(tally_view(out@)[j] == before_out[j]);
            } else {
                assert(out@[i] == out_items[i]);
                assert(text_le(out_items[i].0@, rest_items[m as int].0@));
            }
        }
    }
    assert(tally_view(rest@) =~= Seq::<(Seq<char>, i32)>::empty());
    out
}

pub open spec fn sorted_copy_of_tally(a: Option<Vec<(String, i32)>>, b: Option<Vec<(String, i32)>>) -> bool {
    match (a, b) {
        (Some(a), Some(b)) => tally_view(b@).to_multiset() == tally_view(a@).to_multiset() && tally_sorted(tally_view(b@)),
        (None, None) => true,
        _ => false,
    }
}

fn sort_optional_tally(t: Option<Vec<(String, i32)>>) -> (r: Option<Vec<(String, i32)>>)
    ensures
        sorted_copy_of_tally(t, r),
{
    match t {
        Some(v) => Some(sort_tally(v)),
        None => None,
    }
}

/// The same summary with its names, and the keys of its tallies, in name order.
pub fn in_name_order(s: GameMatchSummary) -> (r: GameMatchSummary)
    ensures
        r.total_kills == s.total_kills,
        r.disconnected_players == s.disconnected_players,
        names_view(r.players@).to_multiset() == names_view(s.players@).to_multiset(),
        names_sorted(names_view(r.players@)),
        tally_view(r.kills@).to_multiset() == tally_view(s.kills@).to_multiset(),
        tally_sorted(tally_view(r.kills@)),
        sorted_copy_of_tally(s.means_of_death, r.means_of_death),
        sorted_copy_of_tally(s.game_reported_scores, r.game_reported_scores),
{
    GameMatchSummary {
        total_kills: s.total_kills,
        players: sort_names(s.players),
        kills: sort_tally(s.kills),
        means_of_death: sort_optional_tally(s.means_of_death),
        game_reported_scores: sort_optional_tally(s.game_reported_scores),
        disconnected_players: s.disconnected_players,
    }
}

} // verus!
