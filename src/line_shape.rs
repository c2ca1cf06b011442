//! The time-stamped shape of a log line: `<h>:<mm> <event name>[:[ ]]<data>`,
//! leading spaces aside, with ASCII digits for the hour and the minutes.
use vstd::prelude::*;
use vstd::string::*;

use crate::text::{is_digit, pair_view, split_once, split_once_spec, trim_spaces_spec, trim_start_spaces};

verus! {

/// How many ASCII digits `s` starts with.
pub open spec fn leading_digits(s: Seq<char>) -> nat
    decreases s.len(),
{
    if s.len() > 0 && is_digit(s[0]) {
        1 + leading_digits(s.skip(1))
    } else {
        0
    }
}

/// The event name and the data of a time-stamped line whose hour has at most
/// `max_hour_digits` digits. The name runs up to the first `:`; one `:` and then
/// one space after it are skipped; the data is the rest and holds no line feed.
pub open spec fn line_parts(line: Seq<char>, max_hour_digits: nat) -> Option<(Seq<char>, Seq<char>)> {
    let l = trim_spaces_spec(line);
    let h = leading_digits(l) as int;
    if 1 <= h <= max_hour_digits && l.len() >= h + 4 && l[h] == ':' && is_digit(l[h + 1])
        && is_digit(l[h + 2]) && l[h + 3] == ' ' {
        let rest = l.skip(h + 4);
        let (name, after) = match split_once_spec(rest, ":"@) {
            Some((a, b)) => (a, b),
            None => (rest, Seq::empty()),
        };
        let data = if after.len() > 0 && after[0] == ' ' { after.skip(1) } else { after };
        if data.contains('\n') {
            None
        } else {
            Some((name, data))
        }
    } else {
        None
    }
}

/// Splits a time-stamped line into its event name and its data.
pub fn line_parts_exec<'a>(line: &'a str, max_hour_digits: usize) -> (r: Option<(&'a str, &'a str)>)
    ensures
        pair_view(r) == line_parts(line@, max_hour_digits as nat),
{
    let l = trim_start_spaces(line);
    let n = l.unicode_len();
    let mut h: usize = 0;
    assert(l@.skip(0) =~= l@);
    while h < n && '0' <= l.get_char(h) && l.get_char(h) <= '9'
        invariant
            n == l@.len(),
            h <= n,
            leading_digits(l@) == h + leading_digits(l@.skip(h as int)),
        decreases n - h,
    {
        assert(l@.skip(h as int).skip(1) =~= l@.skip(h + 1));
        h += 1;
    }
    assert(leading_digits(l@.skip(h as int)) == 0);
    if !(1 <= h && h <= max_hour_digits && n >= 4 && h <= n - 4) {
        return None;
    }
    if !(l.get_char(h) == ':' && '0' <= l.get_char(h + 1) && l.get_char(h + 1) <= '9'
        && '0' <= l.get_char(h + 2) && l.get_char(h + 2) <= '9' && l.get_char(h + 3) == ' ') {
        return None;
    }
    let rest = l.substring_char(h + 4, n);
    assert(rest@ =~= l@.skip(h + 4));
    let (name, after) = match split_once(rest, ":") {
        Some((a, b)) => (a, b),
        None => {
            let e = rest.substring_char(0, 0);
            assert(e@ =~= Seq::<char>::empty());
            (rest, e)
        },
    };
    let m = after.unicode_len();
    let data = if m > 0 && after.get_char(0) == ' ' { after.substring_char(1, m) } else { after };
    assert(m > 0 && after@[0] == ' ' ==> data@ =~= after@.skip(1));
    proof {
        let hh = leading_digits(l@) as int;
        assert(hh == h);
        let (sn, sa) = match split_once_spec(rest@, ":"@) {
            Some((a, b)) => (a, b),
            None => (rest@, Seq::<char>::empty()),
        };
        assert(sn == name@ && sa == after@);
        let sd = if sa.len() > 0 && sa[0] == ' ' { sa.skip(1) } else { sa };
        assert(sd == data@);
        assert(line_parts(line@, max_hour_digits as nat) == if data@.contains('\n') {
            None
        } else {
            Some((name@, data@))
        });
    }
    let k = data.unicode_len();
    let mut i: usize = 0;
    while i < k
        invariant
            k == data@.len(),
            i <= k,
            forall|j: int| 0 <= j < i ==> data@[j] != '\n',
            line_parts(line@, max_hour_digits as nat) == if data@.contains('\n') {
                None
            } else {
                Some((name@, data@))
            },
        decreases k - i,
    {
        if data.get_char(i) == '\n' {
            assert(data@[i as int] == '\n');
            assert(data@.contains('\n'));
            return None;
        }
        i += 1;
    }
    Some((name, data))
}

} // verus!
