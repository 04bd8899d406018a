//! Character-level models of the string operations the library relies on:
//! searching, trimming, splitting into lines or fields, joining paths and
//! formatting numbers. Each executable helper works on a `Vec<char>` window
//! and is proved against a recursive specification over `Seq<char>`.

use vstd::prelude::*;
use vstd::string::*;

verus! {

broadcast use vstd::string::group_string_axioms;

/// Appends one character to a string.
///
/// Wraps `String::push`; the contract claims that the string afterwards is the
/// old contents followed by `c`.
#[verifier::external_body]
fn push_char(s: &mut String, c: char)
    ensures
        final(s)@ == old(s)@.push(c),
{
    s.push(c);
}

/// The characters of `s`, in order.
pub fn chars_of(s: &str) -> (v: Vec<char>)
    ensures
        v@ == s@,
{
    let mut v: Vec<char> = Vec::new();
    for c in it: s.chars()
        invariant
            v@.len() == it.index(),
            forall|i: int| 0 <= i < v@.len() ==> v@[i] == it.seq()[i],
    {
        v.push(c);
    }
    assert(v@ =~= s@);
    v
}

/// The string made of the characters `v[from..to]`.
pub fn string_from_range(v: &Vec<char>, from: usize, to: usize) -> (s: String)
    requires
        from <= to <= v@.len(),
    ensures
        s@ == v@.subrange(from as int, to as int),
{
    let mut s = String::new();
    let mut i = from;
    while i < to
        invariant
            from <= i <= to <= v@.len(),
            s@ == v@.subrange(from as int, i as int),
        decreases to - i,
    {
        push_char(&mut s, v[i]);
        assert(v@.subrange(from as int, i + 1) =~= v@.subrange(from as int, i as int).push(v@[i as int]));
        i = i + 1;
    }
    s
}

/// Whether two strings hold the same characters.
pub fn str_eq(a: &str, b: &str) -> (r: bool)
    ensures
        r == (a@ == b@),
{
    broadcast use vstd::utf8::group_utf8_lib;

    let x = a.as_bytes();
    let y = b.as_bytes();
    if x.len() != y.len() {
        return false;
    }
    let mut i: usize = 0;
    while i < x.len()
        invariant
            x@.len() == y@.len(),
            x@ == a.spec_bytes(),
            y@ == b.spec_bytes(),
            i <= x@.len(),
            forall|j: int| 0 <= j < i ==> x@[j] == y@[j],
        decreases x@.len() - i,
    {
        if x[i] != y[i] {
            return false;
        }
        i = i + 1;
    }
    assert(x@ =~= y@);
    assert(vstd::utf8::decode_utf8(vstd::utf8::encode_utf8(a@)) == a@);
    assert(vstd::utf8::decode_utf8(vstd::utf8::encode_utf8(b@)) == b@);
    true
}

// ---------------------------------------------------------------------------
// Searching for one element
// ---------------------------------------------------------------------------

/// The index of the first occurrence of `x` in `s`.
pub open spec fn index_of<A>(s: Seq<A>, x: A) -> Option<int>
    decreases s.len(),
{
    if s.len() == 0 {
        None
    } else if s[0] == x {
        Some(0)
    } else {
        match index_of(s.drop_first(), x) {
            Some(i) => Some(i + 1),
            None => None,
        }
    }
}

/// `index_of` is the least index holding `x`, and `None` exactly when `x`
/// does not occur.
pub proof fn lemma_index_of<A>(s: Seq<A>, x: A)
    ensures
        match index_of(s, x) {
            Some(i) => 0 <= i < s.len() && s[i] == x && forall|j: int| 0 <= j < i ==> s[j] != x,
            None => forall|j: int| 0 <= j < s.len() ==> s[j] != x,
        },
    decreases s.len(),
{
    if s.len() > 0 && s[0] != x {
        lemma_index_of(s.drop_first(), x);
        match index_of(s.drop_first(), x) {
            Some(i) => {
                assert forall|j: int| 0 <= j < i + 1 implies s[j] != x by {
                    if j > 0 {
                        assert(s[j] == s.drop_first()[j - 1]);
                    }
                }
            },
            None => {
                assert forall|j: int| 0 <= j < s.len() implies s[j] != x by {
                    if j > 0 {
                        assert(s[j] == s.drop_first()[j - 1]);
                    }
                }
            },
        }
    }
}

/// A least index holding `x` is what `index_of` returns.
pub proof fn lemma_index_of_found<A>(s: Seq<A>, x: A, i: int)
    requires
        0 <= i < s.len(),
        s[i] == x,
        forall|j: int| 0 <= j < i ==> s[j] != x,
    ensures
        index_of(s, x) == Some(i),
{
    lemma_index_of(s, x);
    match index_of(s, x) {
        Some(k) => {
            if k < i {
                assert(s[k] != x);
            }
            if k > i {
                assert(s[i] != x);
            }
        },
        None => {
            assert(s[i] != x);
        },
    }
}

/// When `x` does not occur, `index_of` is `None`.
pub proof fn lemma_index_of_absent<A>(s: Seq<A>, x: A)
    requires
        forall|j: int| 0 <= j < s.len() ==> s[j] != x,
    ensures
        index_of(s, x) is None,
{
    lemma_index_of(s, x);
    match index_of(s, x) {
        Some(k) => {
            assert(s[k] != x);
        },
        None => {},
    }
}

/// The first position `i` in `from..to` with `v[i] == c`.
pub fn char_index_in(v: &Vec<char>, from: usize, to: usize, c: char) -> (r: Option<usize>)
    requires
        from <= to <= v@.len(),
    ensures
        match r {
            Some(i) => index_of(v@.subrange(from as int, to as int), c) == Some(i - from),
            None => index_of(v@.subrange(from as int, to as int), c) is None,
        },
        match r {
            Some(i) => from <= i < to && v@[i as int] == c && forall|j: int|
                from <= j < i ==> v@[j] != c,
            None => forall|j: int| from <= j < to ==> v@[j] != c,
        },
{
    let ghost w = v@.subrange(from as int, to as int);
    let mut i = from;
    while i < to
        invariant
            from <= i <= to <= v@.len(),
            w == v@.subrange(from as int, to as int),
            forall|j: int| 0 <= j < i - from ==> w[j] != c,
            forall|j: int| from <= j < i ==> v@[j] != c,
        decreases to - i,
    {
        if v[i] == c {
            proof {
                lemma_index_of_found(w, c, i - from);
            }
            return Some(i);
        }
        i = i + 1;
    }
    proof {
        lemma_index_of_absent(w, c);
    }
    None
}

// ---------------------------------------------------------------------------
// Trimming
// ---------------------------------------------------------------------------

/// Whether `c` is a Unicode `White_Space` character (what `char::is_whitespace`
/// accepts).
pub open spec fn is_whitespace(c: char) -> bool {
    let u = c as u32;
    ||| 0x09 <= u <= 0x0d
    ||| u == 0x20
    ||| u == 0x85
    ||| u == 0xa0
    ||| u == 0x1680
    ||| 0x2000 <= u <= 0x200a
    ||| u == 0x2028
    ||| u == 0x2029
    ||| u == 0x202f
    ||| u == 0x205f
    ||| u == 0x3000
}

/// Which characters a trim removes.
#[derive(Clone, Copy)]
pub enum TrimPattern {
    Whitespace,
    Char(char),
}

impl TrimPattern {
    pub open spec fn accepts(self, c: char) -> bool {
        match self {
            TrimPattern::Whitespace => is_whitespace(c),
            TrimPattern::Char(x) => c == x,
        }
    }
}

pub fn accepts(p: TrimPattern, c: char) -> (r: bool)
    ensures
        r == p.accepts(c),
{
    match p {
        TrimPattern::Whitespace => {
            let u = c as u32;
            (0x09 <= u && u <= 0x0d) || u == 0x20 || u == 0x85 || u == 0xa0 || u == 0x1680 || (
            0x2000 <= u && u <= 0x200a) || u == 0x2028 || u == 0x2029 || u == 0x202f || u
                == 0x205f || u == 0x3000
        },
        TrimPattern::Char(x) => c == x,
    }
}

/// `s` without the leading characters that `p` accepts.
pub open spec fn trim_start_by(s: Seq<char>, p: TrimPattern) -> Seq<char>
    decreases s.len(),
{
    if s.len() > 0 && p.accepts(s[0]) {
        trim_start_by(s.drop_first(), p)
    } else {
        s
    }
}

/// `s` without the trailing characters that `p` accepts.
pub open spec fn trim_end_by(s: Seq<char>, p: TrimPattern) -> Seq<char>
    decreases s.len(),
{
    if s.len() > 0 && p.accepts(s.last()) {
        trim_end_by(s.drop_last(), p)
    } else {
        s
    }
}

/// `s` without the leading and trailing characters that `p` accepts
/// (`str::trim_matches`).
pub open spec fn trim_by(s: Seq<char>, p: TrimPattern) -> Seq<char> {
    trim_end_by(trim_start_by(s, p), p)
}

/// `s` without leading and trailing whitespace (`str::trim`).
pub open spec fn trim(s: Seq<char>) -> Seq<char> {
    trim_by(s, TrimPattern::Whitespace)
}

/// Narrows the window `from..to` of `v` to its trimmed part.
pub fn trim_range(v: &Vec<char>, from: usize, to: usize, p: TrimPattern) -> (r: (usize, usize))
    requires
        from <= to <= v@.len(),
    ensures
        from <= r.0 <= r.1 <= to,
        v@.subrange(r.0 as int, r.1 as int) == trim_by(v@.subrange(from as int, to as int), p),
{
    let mut a = from;
    while a < to && accepts(p, v[a])
        invariant
            from <= a <= to <= v@.len(),
            trim_start_by(v@.subrange(from as int, to as int), p) == trim_start_by(
                v@.subrange(a as int, to as int),
                p,
            ),
        decreases to - a,
    {
        assert(v@.subrange(a as int, to as int).drop_first() =~= v@.subrange(a + 1, to as int));
        a = a + 1;
    }
    assert(trim_start_by(v@.subrange(a as int, to as int), p) == v@.subrange(a as int, to as int));
    let mut b = to;
    while b > a && accepts(p, v[b - 1])
        invariant
            from <= a <= b <= to <= v@.len(),
            trim_end_by(v@.subrange(a as int, to as int), p) == trim_end_by(
                v@.subrange(a as int, b as int),
                p,
            ),
        decreases b - a,
    {
        assert(v@.subrange(a as int, b as int).drop_last() =~= v@.subrange(a as int, b - 1));
        b = b - 1;
    }
    (a, b)
}


// ---------------------------------------------------------------------------
// Searching for a pattern
// ---------------------------------------------------------------------------

/// Whether `n` occurs in `h` at position `i`.
pub open spec fn matches_at(h: Seq<char>, n: Seq<char>, i: int) -> bool {
    0 <= i && i + n.len() <= h.len() && h.subrange(i, i + n.len()) == n
}

/// The position of the first occurrence of `n` in `h` (`str::find`, counted in
/// characters).
pub open spec fn find(h: Seq<char>, n: Seq<char>) -> Option<int>
    decreases h.len(),
{
    if h.len() < n.len() {
        None
    } else if h.subrange(0, n.len() as int) == n {
        Some(0)
    } else if h.len() == 0 {
        None
    } else {
        match find(h.drop_first(), n) {
            Some(i) => Some(i + 1),
            None => None,
        }
    }
}

/// `find` is the least matching position, and `None` exactly when `n` does
/// not occur.
pub proof fn lemma_find(h: Seq<char>, n: Seq<char>)
    ensures
        match find(h, n) {
            Some(i) => matches_at(h, n, i) && forall|j: int| 0 <= j < i ==> !matches_at(h, n, j),
            None => forall|j: int| !matches_at(h, n, j),
        },
    decreases h.len(),
{
    if h.len() < n.len() {
    } else if h.subrange(0, n.len() as int) == n {
    } else if h.len() == 0 {
    } else {
        let t = h.drop_first();
        lemma_find(t, n);
        assert forall|j: int| j >= 1 implies matches_at(h, n, j) == matches_at(t, n, j - 1) by {
            if 0 <= j - 1 && j - 1 + n.len() <= t.len() {
                assert(h.subrange(j, j + n.len()) =~= t.subrange(j - 1, j - 1 + n.len()));
            }
        }
        assert(!matches_at(h, n, 0));
    }
}

/// A least matching position is what `find` returns.
pub proof fn lemma_find_found(h: Seq<char>, n: Seq<char>, i: int)
    requires
        matches_at(h, n, i),
        forall|j: int| 0 <= j < i ==> !matches_at(h, n, j),
    ensures
        find(h, n) == Some(i),
{
    lemma_find(h, n);
    match find(h, n) {
        Some(k) => {
            if k < i {
                assert(!matches_at(h, n, k));
            }
            if k > i {
                assert(!matches_at(h, n, i));
            }
        },
        None => {
            assert(!matches_at(h, n, i));
        },
    }
}

/// When `n` occurs nowhere, `find` is `None`.
pub proof fn lemma_find_absent(h: Seq<char>, n: Seq<char>)
    requires
        forall|j: int| !matches_at(h, n, j),
    ensures
        find(h, n) is None,
{
    lemma_find(h, n);
}

/// Whether `n` occurs in `v` at position `i`.
fn matches_at_exec(v: &Vec<char>, i: usize, n: &Vec<char>) -> (r: bool)
    requires
        i + n@.len() <= v@.len(),
    ensures
        r == (v@.subrange(i as int, i + n@.len()) == n@),
{
    let vl = v.len();
    let mut k: usize = 0;
    while k < n.len()
        invariant
            vl == v@.len(),
            i + n@.len() <= v@.len(),
            k <= n@.len(),
            forall|j: int| 0 <= j < k ==> v@[i + j] == n@[j],
        decreases n@.len() - k,
    {
        assert(i + k < v@.len());
        if v[i + k] != n[k] {
            assert(v@.subrange(i as int, i + n@.len())[k as int] != n@[k as int]);
            return false;
        }
        k = k + 1;
    }
    assert(v@.subrange(i as int, i + n@.len()) =~= n@);
    true
}

/// The first position `i` in `from..to` where `n` occurs entirely inside the
/// window `from..to`.
pub fn find_in(v: &Vec<char>, from: usize, to: usize, n: &Vec<char>) -> (r: Option<usize>)
    requires
        from <= to <= v@.len(),
    ensures
        match r {
            Some(i) => find(v@.subrange(from as int, to as int), n@) == Some(i - from),
            None => find(v@.subrange(from as int, to as int), n@) is None,
        },
        r matches Some(i) ==> from <= i && i + n@.len() <= to,
{
    let ghost w = v@.subrange(from as int, to as int);
    if n.len() > to - from {
        proof {
            lemma_find_absent(w, n@);
        }
        return None;
    }
    if n.len() == 0 {
        proof {
            assert(w.subrange(0, 0) =~= n@);
            lemma_find_found(w, n@, 0);
        }
        return Some(from);
    }
    let last = to - n.len();
    let mut i = from;
    while i <= last
        invariant
            from <= i <= last + 1,
            n@.len() >= 1,
            last + n@.len() == to,
            to <= v@.len(),
            w == v@.subrange(from as int, to as int),
            forall|j: int| 0 <= j < i - from ==> !matches_at(w, n@, j),
        decreases last + 1 - i,
    {
        let hit = matches_at_exec(v, i, n);
        assert(w.subrange(i - from, i - from + n@.len()) =~= v@.subrange(
            i as int,
            i + n@.len(),
        ));
        if hit {
            proof {
                lemma_find_found(w, n@, i - from);
            }
            assert(i + n@.len() <= to);
            return Some(i);
        }
        i = i + 1;
    }
    proof {
        lemma_find_absent(w, n@);
    }
    None
}

/// Whether `s` begins with `p`.
pub open spec fn starts_with(s: Seq<char>, p: Seq<char>) -> bool {
    p.len() <= s.len() && s.subrange(0, p.len() as int) == p
}

/// Whether the window `from..to` of `v` begins with `p`.
pub fn starts_with_in(v: &Vec<char>, from: usize, to: usize, p: &Vec<char>) -> (r: bool)
    requires
        from <= to <= v@.len(),
    ensures
        r == starts_with(v@.subrange(from as int, to as int), p@),
{
    if p.len() > to - from {
        return false;
    }
    let r = matches_at_exec(v, from, p);
    assert(v@.subrange(from as int, to as int).subrange(0, p@.len() as int) =~= v@.subrange(
        from as int,
        from + p@.len(),
    ));
    r
}

// ---------------------------------------------------------------------------
// Splitting into fields and lines
// ---------------------------------------------------------------------------

/// The pieces of `s` between occurrences of `sep` (`str::split` with a
/// character pattern): always at least one piece.
pub open spec fn split(s: Seq<char>, sep: char) -> Seq<Seq<char>>
    decreases s.len(),
{
    match index_of(s, sep) {
        Some(i) => {
            proof {
                lemma_index_of(s, sep);
            }
            seq![s.subrange(0, i)] + split(s.subrange(i + 1, s.len() as int), sep)
        },
        None => seq![s],
    }
}

/// The lines of `s`, split at `'\n'`. A `'\r'` before the line break stays in
/// the line; every use of the lines here trims them, which removes it.
pub open spec fn lines(s: Seq<char>) -> Seq<Seq<char>> {
    split(s, '\n')
}

/// One step of `split` on a window of `v`: when `sep` is found at `e`, the
/// pieces of `pos..to` are the piece `pos..e` followed by the pieces of
/// `e + 1..to`; when it is not found, the window is the only piece.
pub proof fn lemma_split_step(v: Seq<char>, pos: int, to: int, sep: char)
    requires
        0 <= pos <= to <= v.len(),
    ensures
        match index_of(v.subrange(pos, to), sep) {
            Some(k) => split(v.subrange(pos, to), sep) == seq![v.subrange(pos, pos + k)] + split(
                v.subrange(pos + k + 1, to),
                sep,
            ) && 0 <= k < to - pos && v[pos + k] == sep && forall|j: int|
                pos <= j < pos + k ==> v[j] != sep,
            None => split(v.subrange(pos, to), sep) == seq![v.subrange(pos, to)],
        },
{
    let w = v.subrange(pos, to);
    lemma_index_of(w, sep);
    match index_of(w, sep) {
        Some(k) => {
            assert(w.subrange(0, k) =~= v.subrange(pos, pos + k));
            assert(w.subrange(k + 1, w.len() as int) =~= v.subrange(pos + k + 1, to));
            assert forall|j: int| pos <= j < pos + k implies v[j] != sep by {
                assert(v[j] == w[j - pos]);
            }
        },
        None => {},
    }
}

// ---------------------------------------------------------------------------
// Paths
// ---------------------------------------------------------------------------

/// `base` joined with `rel` the way `Path::join` does on Unix: an absolute
/// `rel` replaces `base`; otherwise a `/` separates the two unless `base` is
/// empty or already ends with one.
pub open spec fn join_path(base: Seq<char>, rel: Seq<char>) -> Seq<char> {
    if rel.len() > 0 && rel[0] == '/' {
        rel
    } else if base.len() == 0 || base.last() == '/' {
        base + rel
    } else {
        base + seq!['/'] + rel
    }
}

/// `base` joined with `rel` (see `join_path`).
pub fn join(base: &str, rel: &str) -> (r: String)
    ensures
        r@ == join_path(base@, rel@),
{
    let rel_len = rel.unicode_len();
    if rel_len > 0 && rel.get_char(0) == '/' {
        return rel.to_owned();
    }
    let base_len = base.unicode_len();
    let mut r = base.to_owned();
    if base_len > 0 && base.get_char(base_len - 1) != '/' {
        push_char(&mut r, '/');
    }
    r.append(rel);
    r
}

// ---------------------------------------------------------------------------
// Numbers
// ---------------------------------------------------------------------------

/// The character for digit `d` (lower-case letters past nine).
pub open spec fn digit_char(d: nat) -> char {
    if d < 10 {
        (('0' as u32) + d) as char
    } else {
        (('a' as u32) + d - 10) as char
    }
}

/// `n` written in base `b` without leading zeros (`0` is written `"0"`).
pub open spec fn digits(n: nat, b: nat) -> Seq<char>
    recommends
        2 <= b <= 16,
    decreases n,
{
    if n < b || b < 2 {
        seq![digit_char(n % b)]
    } else {
        proof {
            assert(n / b < n) by (nonlinear_arith)
                requires
                    n >= b,
                    b >= 2,
            ;
        }
        digits(n / b, b).push(digit_char(n % b))
    }
}

/// Whether `c` is one of `0-9a-f`.
pub open spec fn is_lower_hex_digit(c: char) -> bool {
    (48 <= c as u32 <= 57) || (97 <= c as u32 <= 102)
}

/// A number written in base sixteen is a non-empty run of `0-9a-f`.
pub proof fn lemma_hex_digits(n: nat)
    ensures
        digits(n, 16).len() > 0,
        forall|j: int| 0 <= j < digits(n, 16).len() ==> is_lower_hex_digit(#[trigger] digits(n, 16)[j]),
    decreases n,
{
    let d = n % 16;
    let c = digit_char(d);
    assert(is_lower_hex_digit(c));
    if n >= 16 {
        lemma_hex_digits(n / 16);
        let p = digits(n / 16, 16);
        assert forall|j: int| 0 <= j < p.push(c).len() implies is_lower_hex_digit(#[trigger] p.push(c)[j]) by {
            if j < p.len() {
                assert(p.push(c)[j] == p[j]);
            }
        }
    }
}

/// Different numbers are written differently in base sixteen.
pub proof fn lemma_hex_digits_injective(a: nat, b: nat)
    requires
        digits(a, 16) == digits(b, 16),
    ensures
        a == b,
    decreases a,
{
    lemma_hex_digits(a);
    lemma_hex_digits(b);
    if a < 16 && b < 16 {
        assert(digit_char(a % 16) == digits(a, 16)[0]);
        assert(digit_char(b % 16) == digits(b, 16)[0]);
        assert(digit_char(a) as u32 == digit_char(b) as u32);
    } else if a < 16 {
        lemma_hex_digits(b / 16);
        assert(digits(b, 16).len() == digits(b / 16, 16).len() + 1);
    } else if b < 16 {
        lemma_hex_digits(a / 16);
        assert(digits(a, 16).len() == digits(a / 16, 16).len() + 1);
    } else {
        let pa = digits(a / 16, 16);
        let pb = digits(b / 16, 16);
        let ca = digit_char(a % 16);
        let cb = digit_char(b % 16);
        assert(pa.push(ca).last() == pb.push(cb).last());
        assert(ca as u32 == cb as u32);
        assert(a % 16 == b % 16);
        assert(pa =~= pa.push(ca).drop_last());
        assert(pb =~= pb.push(cb).drop_last());
        lemma_hex_digits_injective(a / 16, b / 16);
    }
}

fn digit_char_exec(d: u32) -> (c: char)
    requires
        d < 16,
    ensures
        c == digit_char(d as nat),
{
    let x: u8 = if d < 10 {
        48u8 + (d as u8)
    } else {
        97u8 + (d as u8 - 10)
    };
    x as char
}

/// `n` written in base `b` (`format!("{n}")` for base ten, `format!("{n:x}")`
/// for base sixteen).
pub fn format_digits(n: u128, b: u128) -> (s: String)
    requires
        2 <= b <= 16,
    ensures
        s@ == digits(n as nat, b as nat),
{
    let mut rev: Vec<char> = Vec::new();
    let mut m = n;
    while m >= b
        invariant
            2 <= b <= 16,
            digits(n as nat, b as nat) == digits(m as nat, b as nat) + rev@.reverse(),
        decreases m,
    {
        let d = (m % b) as u32;
        let c = digit_char_exec(d);
        assert(digits(m as nat, b as nat) == digits((m / b) as nat, b as nat).push(c));
        assert(rev@.push(c).reverse() =~= seq![c] + rev@.reverse());
        rev.push(c);
        m = m / b;
    }
    let c = digit_char_exec(m as u32);
    assert(m % b == m) by (nonlinear_arith)
        requires
            m < b,
    ;
    assert(digits(m as nat, b as nat) == seq![c]);
    assert(rev@.push(c).reverse() =~= seq![c] + rev@.reverse());
    rev.push(c);
    assert(digits(n as nat, b as nat) == rev@.reverse());
    let ghost target = rev@.reverse();
    let mut s = String::new();
    let mut j: usize = 0;
    while j < rev.len()
        invariant
            j <= rev@.len(),
            target == rev@.reverse(),
            s@ == target.subrange(0, j as int),
        decreases rev@.len() - j,
    {
        let c = rev[rev.len() - 1 - j];
        assert(c == target[j as int]);
        push_char(&mut s, c);
        assert(s@ =~= target.subrange(0, j + 1));
        j = j + 1;
    }
    assert(s@ =~= target);
    s
}

} // verus!
