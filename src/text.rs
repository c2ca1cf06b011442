//! Small verified helpers on text.
use vstd::prelude::*;
use vstd::string::*;

verus! {

/// The character of a decimal digit.
pub open spec fn digit_char(d: nat) -> char {
    "0123456789"@[d as int]
}

/// The decimal notation of `n`, without leading zeros.
pub open spec fn decimal_spec(n: nat) -> Seq<char>
    decreases n,
{
    if n < 10 {
        seq![digit_char(n)]
    } else {
        decimal_spec(n / 10).push(digit_char(n % 10))
    }
}

/// Writes `n` in decimal.
pub fn decimal(n: u32) -> (r: String)
    ensures
        r@ == decimal_spec(n as nat),
    decreases n,
{
    let digits = "0123456789";
    proof {
        reveal_strlit("0123456789");
    }
    let d = (n % 10) as usize;
    let last = digits.substring_char(d, d + 1);
    assert(last@ =~= seq![digit_char(d as nat)]);
    if n < 10 {
        String::from_str(last)
    } else {
        let mut r = decimal(n / 10);
        r.append(last);
        assert(r@ =~= decimal_spec((n / 10) as nat).push(digit_char((n % 10) as nat)));
        r
    }
}

/// True when `s` holds exactly the characters of `lit`.
pub fn same_text(s: &str, lit: &str) -> (r: bool)
    ensures
        r == (s@ == lit@),
{
    let a = String::from_str(s);
    let b = String::from_str(lit);
    a == b
}

/// `p` stands in `s` at position `i`.
pub open spec fn occurs_at(s: Seq<char>, p: Seq<char>, i: int) -> bool {
    0 <= i && i + p.len() <= s.len() && s.subrange(i, i + p.len()) == p
}

/// `i` is the first position at which `p` stands in `s`.
pub open spec fn first_occurrence(s: Seq<char>, p: Seq<char>, i: int) -> bool {
    occurs_at(s, p, i) && forall|j: int| 0 <= j < i ==> !occurs_at(s, p, j)
}

/// `i` is the last position at which `p` stands in `s`.
pub open spec fn last_occurrence(s: Seq<char>, p: Seq<char>, i: int) -> bool {
    occurs_at(s, p, i) && forall|j: int| i < j ==> !occurs_at(s, p, j)
}

/// What stands before and after the first `p` in `s`, if `p` occurs.
pub open spec fn split_once_spec(s: Seq<char>, p: Seq<char>) -> Option<(Seq<char>, Seq<char>)> {
    if exists|i: int| first_occurrence(s, p, i) {
        let i = choose|i: int| first_occurrence(s, p, i);
        Some((s.take(i), s.skip(i + p.len())))
    } else {
        None
    }
}

/// What stands before and after the last `p` in `s`, if `p` occurs.
pub open spec fn rsplit_once_spec(s: Seq<char>, p: Seq<char>) -> Option<(Seq<char>, Seq<char>)> {
    if exists|i: int| last_occurrence(s, p, i) {
        let i = choose|i: int| last_occurrence(s, p, i);
        Some((s.take(i), s.skip(i + p.len())))
    } else {
        None
    }
}

/// The piece of `s` numbered `n` (from 0) when `s` is cut at every `p`.
pub open spec fn nth_piece(s: Seq<char>, p: Seq<char>, n: nat) -> Option<Seq<char>>
    decreases n,
{
    match split_once_spec(s, p) {
        Some((a, rest)) => if n == 0 { Some(a) } else { nth_piece(rest, p, (n - 1) as nat) },
        None => if n == 0 { Some(s) } else { None },
    }
}

/// `s` without its leading spaces.
pub open spec fn trim_spaces_spec(s: Seq<char>) -> Seq<char>
    decreases s.len(),
{
    if s.len() > 0 && s[0] == ' ' {
        trim_spaces_spec(s.skip(1))
    } else {
        s
    }
}

pub open spec fn pair_view(r: Option<(&str, &str)>) -> Option<(Seq<char>, Seq<char>)> {
    match r {
        Some((a, b)) => Some((a@, b@)),
        None => None,
    }
}

/// True when `p` stands in `s` at position `i`.
pub fn occurs_at_exec(s: &str, p: &str, i: usize) -> (r: bool)
    ensures
        r == occurs_at(s@, p@, i as int),
{
    let n = s.unicode_len();
    let m = p.unicode_len();
    if i > n || m > n - i {
        return false;
    }
    let mut k: usize = 0;
    while k < m
        invariant
            i + m <= n,
            n == s@.len(),
            m == p@.len(),
            k <= m,
            forall|j: int| 0 <= j < k ==> s@[i + j] == p@[j],
        decreases m - k,
    {
        if s.get_char(i + k) != p.get_char(k) {
            assert(s@.subrange(i as int, i + m)[k as int] != p@[k as int]);
            return false;
        }
        k += 1;
    }
    assert(s@.subrange(i as int, i + m) =~= p@);
    true
}

/// The first position, at or after `from`, at which `p` stands in `s`.
fn find_from(s: &str, p: &str, from: usize) -> (r: Option<usize>)
    ensures
        match r {
            Some(i) => from <= i && occurs_at(s@, p@, i as int) && forall|j: int| from <= j < i ==> !occurs_at(s@, p@, j),
            None => forall|j: int| from <= j ==> !occurs_at(s@, p@, j),
        },
{
    let n = s.unicode_len();
    let mut i = from;
    while i <= n
        invariant
            n == s@.len(),
            from <= i,
            forall|j: int| from <= j < i ==> !occurs_at(s@, p@, j),
        decreases n + 1 - i,
    {
        if occurs_at_exec(s, p, i) {
            return Some(i);
        }
        if i == n {
            assert forall|j: int| from <= j implies !occurs_at(s@, p@, j) by {
                if j < i {
                } else if j > n {
                }
            }
            return None;
        }
        i += 1;
    }
    None
}

/// Cuts `s` at the first `p`.
pub fn split_once<'a>(s: &'a str, p: &str) -> (r: Option<(&'a str, &'a str)>)
    ensures
        pair_view(r) == split_once_spec(s@, p@),
{
    match find_from(s, p, 0) {
        Some(i) => {
            assert(first_occurrence(s@, p@, i as int));
            let ghost c = choose|c: int| first_occurrence(s@, p@, c);
            assert(c == i) by {
                if c < i {
                    assert(!occurs_at(s@, p@, c));
                } else if c > i {
                    assert(!occurs_at(s@, p@, i as int));
                }
            }
            let n = s.unicode_len();
            let m = p.unicode_len();
            let a = s.substring_char(0, i);
            let b = s.substring_char(i + m, n);
            assert(a@ =~= s@.take(i as int));
            assert(b@ =~= s@.skip(i + m));
            Some((a, b))
        },
        None => None,
    }
}

/// Cuts `s` at the last `p`.
pub fn rsplit_once<'a>(s: &'a str, p: &str) -> (r: Option<(&'a str, &'a str)>)
    requires
        p@.len() > 0,
    ensures
        pair_view(r) == rsplit_once_spec(s@, p@),
{
    let len = s.unicode_len();
    let mut found = find_from(s, p, 0);
    let mut last: Option<usize> = None;
    while found.is_some()
        invariant
            match found {
                Some(i) => occurs_at(s@, p@, i as int)
                    && forall|j: int| (match last { Some(l) => l < j, None => 0 <= j }) && j < i ==> !occurs_at(s@, p@, j),
                None => forall|j: int| (match last { Some(l) => l < j, None => 0 <= j }) ==> !occurs_at(s@, p@, j),
            },
            match last {
                Some(l) => occurs_at(s@, p@, l as int),
                None => true,
            },
            match (found, last) {
                (Some(i), Some(l)) => l < i,
                _ => true,
            },
            len == s@.len(),
            p@.len() > 0,
        decreases (match found { Some(i) => s@.len() + 1 - i, None => 0 }),
    {
        let i = found.unwrap();
        last = Some(i);
        found = find_from(s, p, i + 1);
        proof {
            match found {
                Some(k) => {
                    assert(occurs_at(s@, p@, k as int));
                    assert(k <= s@.len());
                },
                None => {},
            }
        }
    }
    match last {
        Some(i) => {
            assert(last_occurrence(s@, p@, i as int));
            let ghost c = choose|c: int| last_occurrence(s@, p@, c);
            assert(c == i) by {
                if c < i {
                    assert(!occurs_at(s@, p@, i as int));
                } else if c > i {
                    assert(!occurs_at(s@, p@, c));
                }
            }
            let n = s.unicode_len();
            let m = p.unicode_len();
            let a = s.substring_char(0, i);
            let b = s.substring_char(i + m, n);
            assert(a@ =~= s@.take(i as int));
            assert(b@ =~= s@.skip(i + m));
            Some((a, b))
        },
        None => {
            assert forall|c: int| !last_occurrence(s@, p@, c) by {
                assert(!occurs_at(s@, p@, c));
            }
            None
        },
    }
}

/// The piece numbered `n` of `s` cut at every `p`.
pub fn nth_piece_exec<'a>(s: &'a str, p: &str, n: usize) -> (r: Option<&'a str>)
    ensures
        match r {
            Some(x) => nth_piece(s@, p@, n as nat) == Some(x@),
            None => nth_piece(s@, p@, n as nat) is None,
        },
    decreases n,
{
    match split_once(s, p) {
        Some((a, rest)) => if n == 0 { Some(a) } else { nth_piece_exec(rest, p, n - 1) },
        None => if n == 0 { Some(s) } else { None },
    }
}

/// `s` without its leading spaces.
pub fn trim_start_spaces<'a>(s: &'a str) -> (r: &'a str)
    ensures
        r@ == trim_spaces_spec(s@),
{
    let n = s.unicode_len();
    let mut i: usize = 0;
    assert(s@.skip(0) =~= s@);
    while i < n && s.get_char(i) == ' '
        invariant
            n == s@.len(),
            i <= n,
            trim_spaces_spec(s@) == trim_spaces_spec(s@.skip(i as int)),
        decreases n - i,
    {
        assert(s@.skip(i as int).skip(1) =~= s@.skip(i + 1));
        i += 1;
    }
    let r = s.substring_char(i, n);
    assert(r@ =~= s@.skip(i as int));
    r
}

/// Why a text is not an integer of the asked type.
#[derive(Debug, Clone, Copy, PartialEq, Eq, Structural)]
pub enum IntErrorKind {
    Empty,
    InvalidDigit,
    PosOverflow,
    NegOverflow,
}

pub open spec fn is_digit(c: char) -> bool {
    '0' <= c && c <= '9'
}

pub open spec fn digit_value(c: char) -> int {
    c as int - '0' as int
}

/// Reads the decimal digits of `s` from the left onto `acc` (subtracting them
/// when `neg`), failing at the first character that is no digit or at the first
/// digit that takes the value out of `[lo, hi]`.
pub open spec fn scan_digits(s: Seq<char>, acc: int, neg: bool, lo: int, hi: int) -> Result<int, IntErrorKind>
    decreases s.len(),
{
    if s.len() == 0 {
        Ok(acc)
    } else if !is_digit(s[0]) {
        Err(IntErrorKind::InvalidDigit)
    } else {
        let v = if neg { acc * 10 - digit_value(s[0]) } else { acc * 10 + digit_value(s[0]) };
        if v > hi {
            Err(IntErrorKind::PosOverflow)
        } else if v < lo {
            Err(IntErrorKind::NegOverflow)
        } else {
            scan_digits(s.skip(1), v, neg, lo, hi)
        }
    }
}

/// A decimal integer in `[lo, hi]`: an optional `+` (or `-`, when `signed`)
/// followed by at least one digit.
pub open spec fn parse_int_spec(s: Seq<char>, signed: bool, lo: int, hi: int) -> Result<int, IntErrorKind> {
    if s.len() == 0 {
        Err(IntErrorKind::Empty)
    } else if (s[0] == '+' || s[0] == '-') && s.len() == 1 {
        Err(IntErrorKind::InvalidDigit)
    } else if s[0] == '+' {
        scan_digits(s.skip(1), 0, false, lo, hi)
    } else if s[0] == '-' && signed {
        scan_digits(s.skip(1), 0, true, lo, hi)
    } else {
        scan_digits(s, 0, false, lo, hi)
    }
}

pub open spec fn parse_u32_spec(s: Seq<char>) -> Result<int, IntErrorKind> {
    parse_int_spec(s, false, 0, u32::MAX as int)
}

pub open spec fn parse_i32_spec(s: Seq<char>) -> Result<int, IntErrorKind> {
    parse_int_spec(s, true, i32::MIN as int, i32::MAX as int)
}

/// The text that describes a failed integer parse.
pub open spec fn int_error_text(k: IntErrorKind) -> Seq<char> {
    match k {
        IntErrorKind::Empty => "cannot parse integer from empty string"@,
        IntErrorKind::InvalidDigit => "invalid digit found in string"@,
        IntErrorKind::PosOverflow => "number too large to fit in target type"@,
        IntErrorKind::NegOverflow => "number too small to fit in target type"@,
    }
}

pub fn int_error_message(k: IntErrorKind) -> (r: &'static str)
    ensures
        r@ == int_error_text(k),
{
    match k {
        IntErrorKind::Empty => {
            proof { reveal_strlit("cannot parse integer from empty string"); }
            "cannot parse integer from empty string"
        },
        IntErrorKind::InvalidDigit => {
            proof { reveal_strlit("invalid digit found in string"); }
            "invalid digit found in string"
        },
        IntErrorKind::PosOverflow => {
            proof { reveal_strlit("number too large to fit in target type"); }
            "number too large to fit in target type"
        },
        IntErrorKind::NegOverflow => {
            proof { reveal_strlit("number too small to fit in target type"); }
            "number too small to fit in target type"
        },
    }
}

/// Reads digits of `s` from position `start`, as [scan_digits] does.
fn scan_digits_exec(s: &str, start: usize, neg: bool, lo: i64, hi: i64) -> (r: Result<i64, IntErrorKind>)
    requires
        start <= s@.len(),
        -0x1_0000_0000 <= lo <= 0 <= hi <= 0x1_0000_0000,
    ensures
        match scan_digits(s@.skip(start as int), 0, neg, lo as int, hi as int) {
            Ok(v) => r == Ok::<i64, IntErrorKind>(v as i64),
            Err(k) => r == Err::<i64, IntErrorKind>(k),
        },
{
    let n = s.unicode_len();
    let mut i = start;
    let mut acc: i64 = 0;
    while i < n
        invariant
            n == s@.len(),
            start <= i <= n,
            lo <= acc <= hi,
            -0x1_0000_0000 <= lo <= 0 <= hi <= 0x1_0000_0000,
            scan_digits(s@.skip(start as int), 0, neg, lo as int, hi as int)
                == scan_digits(s@.skip(i as int), acc as int, neg, lo as int, hi as int),
        decreases n - i,
    {
        let c = s.get_char(i);
        assert(s@.skip(i as int)[0] == c);
        assert(s@.skip(i as int).skip(1) =~= s@.skip(i + 1));
        if !('0' <= c && c <= '9') {
            return Err(IntErrorKind::InvalidDigit);
        }
        let d = (c as u32 - '0' as u32) as i64;
        let v = if neg { acc * 10 - d } else { acc * 10 + d };
        if v > hi {
            return Err(IntErrorKind::PosOverflow);
        }
        if v < lo {
            return Err(IntErrorKind::NegOverflow);
        }
        acc = v;
        i += 1;
    }
    assert(s@.skip(i as int).len() == 0);
    Ok(acc)
}

/// Reads a signed or unsigned decimal integer within `[lo, hi]`, as [parse_int_spec] says.
fn parse_int(s: &str, signed: bool, lo: i64, hi: i64) -> (r: Result<i64, IntErrorKind>)
    requires
        -0x1_0000_0000 <= lo <= 0 <= hi <= 0x1_0000_0000,
    ensures
        match parse_int_spec(s@, signed, lo as int, hi as int) {
            Ok(v) => r == Ok::<i64, IntErrorKind>(v as i64),
            Err(k) => r == Err::<i64, IntErrorKind>(k),
        },
{
    let n = s.unicode_len();
    if n == 0 {
        return Err(IntErrorKind::Empty);
    }
    let c = s.get_char(0);
    if (c == '+' || c == '-') && n == 1 {
        return Err(IntErrorKind::InvalidDigit);
    }
    if c == '+' {
        scan_digits_exec(s, 1, false, lo, hi)
    } else if c == '-' && signed {
        scan_digits_exec(s, 1, true, lo, hi)
    } else {
        assert(s@.skip(0) =~= s@);
        scan_digits_exec(s, 0, false, lo, hi)
    }
}

/// Reads a `u32` in decimal.
pub fn parse_u32(s: &str) -> (r: Result<u32, IntErrorKind>)
    ensures
        match parse_u32_spec(s@) {
            Ok(v) => r == Ok::<u32, IntErrorKind>(v as u32),
            Err(k) => r == Err::<u32, IntErrorKind>(k),
        },
{
    match parse_int(s, false, 0, 0xffff_ffff) {
        Ok(v) => {
            proof {
                lemma_scan_bounds(s@, false, 0, 0xffff_ffff);
            }
            Ok(v as u32)
        },
        Err(k) => Err(k),
    }
}

/// Reads an `i32` in decimal.
pub fn parse_i32(s: &str) -> (r: Result<i32, IntErrorKind>)
    ensures
        match parse_i32_spec(s@) {
            Ok(v) => r == Ok::<i32, IntErrorKind>(v as i32),
            Err(k) => r == Err::<i32, IntErrorKind>(k),
        },
{
    match parse_int(s, true, -0x8000_0000, 0x7fff_ffff) {
        Ok(v) => {
            proof {
                lemma_scan_bounds(s@, true, -0x8000_0000, 0x7fff_ffff);
            }
            Ok(v as i32)
        },
        Err(k) => Err(k),
    }
}

proof fn lemma_scan_digits_bounds(s: Seq<char>, acc: int, neg: bool, lo: int, hi: int)
    requires
        lo <= acc <= hi,
    ensures
        scan_digits(s, acc, neg, lo, hi) matches Ok(v) ==> lo <= v <= hi,
    decreases s.len(),
{
    if s.len() > 0 && is_digit(s[0]) {
        let v = if neg { acc * 10 - digit_value(s[0]) } else { acc * 10 + digit_value(s[0]) };
        if lo <= v <= hi {
            lemma_scan_digits_bounds(s.skip(1), v, neg, lo, hi);
        }
    }
}

proof fn lemma_scan_bounds(s: Seq<char>, signed: bool, lo: int, hi: int)
    requires
        lo <= 0 <= hi,
    ensures
        parse_int_spec(s, signed, lo, hi) matches Ok(v) ==> lo <= v <= hi,
{
    lemma_scan_digits_bounds(s, 0, false, lo, hi);
    if s.len() > 0 {
        lemma_scan_digits_bounds(s.skip(1), 0, false, lo, hi);
        lemma_scan_digits_bounds(s.skip(1), 0, true, lo, hi);
    }
}

/// The value after the last `key` among the pieces of `s` cut at every `sep`,
/// pieces read in pairs of neighbours (each piece is the key of the next one).
/// What follows a cut is always shorter than `s`; the length test only makes
/// the recursion visibly finite.
pub open spec fn kv_scan(s: Seq<char>, sep: Seq<char>, key: Seq<char>, prev_is_key: bool, found: Option<Seq<char>>) -> Option<Seq<char>>
    decreases s.len(),
{
    match split_once_spec(s, sep) {
        Some((piece, rest)) => {
            let found2 = if prev_is_key { Some(piece) } else { found };
            if rest.len() < s.len() {
                kv_scan(rest, sep, key, piece == key, found2)
            } else {
                found2
            }
        },
        None => if prev_is_key { Some(s) } else { found },
    }
}

/// The value under `key` in text of the form `k1\v1\k2\v2...`, where a later
/// pair wins.
pub open spec fn kv_get_spec(s: Seq<char>, key: Seq<char>) -> Option<Seq<char>> {
    kv_scan(s, "\\"@, key, false, None)
}

/// Looks `key` up in text of the form `k1\v1\k2\v2...`.
pub fn kv_get<'a>(s: &'a str, key: &str) -> (r: Option<&'a str>)
    ensures
        match r {
            Some(v) => kv_get_spec(s@, key@) == Some(v@),
            None => kv_get_spec(s@, key@) is None,
        },
{
    let sep = "\\";
    let mut rest: &'a str = s;
    let mut prev_is_key = false;
    let mut found: Option<&'a str> = None;
    loop
        invariant
            sep@ == "\\"@,
            kv_get_spec(s@, key@) == kv_scan(rest@, sep@, key@, prev_is_key, match found {
                Some(v) => Some(v@),
                None => None,
            }),
        decreases rest@.len(),
    {
        match split_once(rest, sep) {
            Some((piece, next)) => {
                if prev_is_key {
                    found = Some(piece);
                }
                prev_is_key = same_text(piece, key);
                let ghost i = choose|i: int| first_occurrence(rest@, sep@, i);
                proof {
                    reveal_strlit("\\");
                }
                assert(next@.len() < rest@.len());
                rest = next;
            },
            None => {
                if prev_is_key {
                    return Some(rest);
                }
                return found;
            },
        }
    }
}

} // verus!
