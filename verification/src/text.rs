//! Text building blocks shared by the modules: conversion between strings and
//! character sequences, decimal rendering, joining and whitespace trimming.

use vstd::prelude::*;

verus! {

broadcast use vstd::string::group_string_axioms;

/// Calls `String::push`; trusted to append exactly the one character, as the
/// standard library documents.
#[verifier::external_body]
pub(crate) fn push_char(s: &mut String, c: char)
    ensures
        final(s)@ == old(s)@.push(c),
{
    s.push(c);
}

/// Unicode `White_Space` property, the set that `str::trim` removes.
pub open spec fn is_white_space(c: char) -> bool {
    let u = c as int;
    ||| 0x09 <= u <= 0x0d
    ||| u == 0x20
    ||| u == 0x85
    ||| u == 0xa0
    ||| u == 0x1680
    ||| 0x2000 <= u <= 0x200a
    ||| u == 0x2028
    ||| u == 0x2029
    ||| u == 0x202f
    ||| u == 0x205f
    ||| u == 0x3000
}

/// The sequence with its leading white space removed.
pub open spec fn trim_start_seq(s: Seq<char>) -> Seq<char>
    decreases s.len(),
{
    if s.len() > 0 && is_white_space(s[0]) {
        trim_start_seq(s.drop_first())
    } else {
        s
    }
}

/// The sequence with its trailing white space removed.
pub open spec fn trim_end_seq(s: Seq<char>) -> Seq<char>
    decreases s.len(),
{
    if s.len() > 0 && is_white_space(s.last()) {
        trim_end_seq(s.drop_last())
    } else {
        s
    }
}

/// The sequence with leading and trailing white space removed.
pub open spec fn trim_seq(s: Seq<char>) -> Seq<char> {
    trim_end_seq(trim_start_seq(s))
}

/// Whether a character has the Unicode `White_Space` property.
fn white_space(c: char) -> (b: bool)
    ensures
        b == is_white_space(c),
{
    ('\u{9}' <= c && c <= '\u{d}') || c == ' ' || c == '\u{85}' || c == '\u{a0}' || c
        == '\u{1680}' || ('\u{2000}' <= c && c <= '\u{200a}') || c == '\u{2028}' || c
        == '\u{2029}' || c == '\u{202f}' || c == '\u{205f}' || c == '\u{3000}'
}

/// The text with its leading and trailing white space removed, as
/// `str::trim` gives it.
pub(crate) fn trim_text(s: &str) -> (r: String)
    ensures
        r@ == trim_seq(s@),
{
    let cs = chars_of(s);
    let mut lo: usize = 0;
    assert(s@.skip(0) =~= s@);
    while lo < cs.len() && white_space(cs[lo])
        invariant
            lo <= cs.len(),
            cs@ == s@,
            trim_start_seq(s@) == trim_start_seq(s@.skip(lo as int)),
        decreases cs.len() - lo,
    {
        assert(s@.skip(lo as int).drop_first() =~= s@.skip(lo + 1));
        lo = lo + 1;
    }
    proof {
        if lo < cs.len() {
            assert(s@.skip(lo as int)[0] == s@[lo as int]);
        }
    }
    let mut hi: usize = cs.len();
    assert(s@.subrange(lo as int, hi as int) =~= s@.skip(lo as int));
    while hi > lo && white_space(cs[hi - 1])
        invariant
            lo <= hi <= cs.len(),
            cs@ == s@,
            trim_seq(s@) == trim_end_seq(s@.subrange(lo as int, hi as int)),
        decreases hi,
    {
        assert(s@.subrange(lo as int, hi as int).drop_last() =~= s@.subrange(lo as int, hi - 1));
        hi = hi - 1;
    }
    let mut r = String::new();
    let mut i: usize = lo;
    while i < hi
        invariant
            lo <= i <= hi,
            hi <= cs.len(),
            cs@ == s@,
            r@ == s@.subrange(lo as int, i as int),
        decreases hi - i,
    {
        push_char(&mut r, cs[i]);
        assert(s@.subrange(lo as int, i + 1) =~= s@.subrange(lo as int, i as int).push(s@[i as int]));
        i = i + 1;
    }
    proof {
        let t = s@.subrange(lo as int, hi as int);
        if t.len() > 0 {
            assert(t.last() == s@[hi - 1]);
        }
    }
    r
}

/// The characters of a string slice, in order.
pub fn chars_of(s: &str) -> (r: Vec<char>)
    ensures
        r@ == s@,
{
    let mut r: Vec<char> = Vec::new();
    assert(s@.take(s@.len() as int) == s@);
    for c in it: s.chars()
        invariant
            it.seq() == s@,
            r@ == s@.take(it.index() as int),
    {
        r.push(c);
        assert(s@.take(it.index() + 1) == s@.take(it.index() as int).push(c));
    }
    r
}

/// The string holding the given characters.
pub fn string_of(cs: &[char]) -> (r: String)
    ensures
        r@ == cs@,
{
    let mut r = String::new();
    let mut i: usize = 0;
    while i < cs.len()
        invariant
            i <= cs.len(),
            r@ == cs@.take(i as int),
        decreases cs.len() - i,
    {
        push_char(&mut r, cs[i]);
        assert(cs@.take(i + 1) == cs@.take(i as int).push(cs@[i as int]));
        i = i + 1;
    }
    assert(cs@.take(cs@.len() as int) == cs@);
    r
}

/// Owned copy of a string slice.
pub fn owned(s: &str) -> (r: String)
    ensures
        r@ == s@,
{
    String::from_str(s)
}

/// Concatenation of two string slices.
pub fn concat2(a: &str, b: &str) -> (r: String)
    ensures
        r@ == a@ + b@,
{
    let mut r = String::from_str(a);
    r.append(b);
    r
}

/// Concatenation of three string slices.
pub fn concat3(a: &str, b: &str, c: &str) -> (r: String)
    ensures
        r@ == a@ + b@ + c@,
{
    let mut r = String::from_str(a);
    r.append(b);
    r.append(c);
    r
}

/// Decimal digit character of `d`.
pub open spec fn digit_char(d: nat) -> char {
    if d == 0 { '0' } else if d == 1 { '1' } else if d == 2 { '2' } else if d == 3 { '3' }
    else if d == 4 { '4' } else if d == 5 { '5' } else if d == 6 { '6' } else if d == 7 { '7' }
    else if d == 8 { '8' } else { '9' }
}

/// Decimal rendering of a natural number, without leading zeros.
pub open spec fn decimal(n: nat) -> Seq<char>
    decreases n,
{
    if n < 10 {
        seq![digit_char(n)]
    } else {
        decimal(n / 10).push(digit_char(n % 10))
    }
}

fn digit(d: u64) -> (c: char)
    requires
        d < 10,
    ensures
        c == digit_char(d as nat),
{
    if d == 0 { '0' } else if d == 1 { '1' } else if d == 2 { '2' } else if d == 3 { '3' }
    else if d == 4 { '4' } else if d == 5 { '5' } else if d == 6 { '6' } else if d == 7 { '7' }
    else if d == 8 { '8' } else { '9' }
}

/// Decimal rendering of `n`, as `n.to_string()` gives it.
pub fn decimal_string(n: u64) -> (r: String)
    ensures
        r@ == decimal(n as nat),
    decreases n,
{
    if n < 10 {
        let mut r = String::new();
        push_char(&mut r, digit(n));
        r
    } else {
        let mut r = decimal_string(n / 10);
        push_char(&mut r, digit(n % 10));
        r
    }
}

/// The items joined with `sep` between neighbours.
pub open spec fn join_seq(items: Seq<Seq<char>>, sep: Seq<char>) -> Seq<char>
    decreases items.len(),
{
    if items.len() == 0 {
        Seq::empty()
    } else if items.len() == 1 {
        items[0]
    } else {
        join_seq(items.drop_last(), sep) + sep + items.last()
    }
}

/// Whether `p` is a prefix of `s`.
pub open spec fn has_prefix(s: Seq<char>, p: Seq<char>) -> bool {
    p.len() <= s.len() && s.take(p.len() as int) == p
}

/// Whether `lower` is `s` with each ASCII capital letter replaced by its
/// small letter and every other character kept.
pub open spec fn ascii_lower_of(lower: Seq<char>, s: Seq<char>) -> bool {
    &&& lower.len() == s.len()
    &&& forall|i: int|
        0 <= i < s.len() ==> if 'A' <= #[trigger] s[i] && s[i] <= 'Z' {
            lower[i] as int == s[i] as int + 32
        } else {
            lower[i] == s[i]
        }
}

/// Whether `part` occurs in `s` as a contiguous piece.
pub open spec fn contains_part(s: Seq<char>, part: Seq<char>) -> bool {
    exists|i: int| 0 <= i && i + part.len() <= s.len() && #[trigger] s.subrange(i, i + part.len()) == part
}

/// Whether `s` ends with `part`.
pub open spec fn has_suffix(s: Seq<char>, part: Seq<char>) -> bool {
    part.len() <= s.len() && s.skip(s.len() - part.len()) == part
}

/// What stands between a prefix and a suffix occurs in the whole.
pub proof fn lemma_contains_middle(p: Seq<char>, m: Seq<char>, q: Seq<char>)
    ensures
        contains_part(p + m + q, m),
{
    let s = p + m + q;
    assert(s.subrange(p.len() as int, (p.len() + m.len()) as int) =~= m);
}

/// A text contains its own tail.
pub proof fn lemma_contains_tail(p: Seq<char>, m: Seq<char>)
    ensures
        contains_part(p + m, m),
{
    assert((p + m).subrange(p.len() as int, (p.len() + m.len()) as int) =~= m);
}

/// Appending text keeps every piece that was there.
pub proof fn lemma_contains_extend(s: Seq<char>, m: Seq<char>, q: Seq<char>)
    requires
        contains_part(s, m),
    ensures
        contains_part(s + q, m),
{
    let i = choose|i: int| 0 <= i && i + m.len() <= s.len() && #[trigger] s.subrange(i, i + m.len()) == m;
    assert((s + q).subrange(i, i + m.len()) =~= s.subrange(i, i + m.len()));
}

/// A text built from a prefix and three pieces contains the three pieces
/// together.
pub proof fn lemma_contains_three(p: Seq<char>, a: Seq<char>, b: Seq<char>, c: Seq<char>)
    ensures
        contains_part(p + a + b + c, a + b + c),
{
    vstd::seq_lib::lemma_concat_associative(p, a, b);
    vstd::seq_lib::lemma_concat_associative(p, a + b, c);
    lemma_contains_tail(p, a + b + c);
}

/// A text built from a prefix and two pieces ends with the two pieces.
pub proof fn lemma_suffix_two(p: Seq<char>, a: Seq<char>, b: Seq<char>)
    ensures
        has_suffix(p + a + b, a + b),
{
    vstd::seq_lib::lemma_concat_associative(p, a, b);
    lemma_suffix_of_concat(p, a + b);
}

/// Appending text keeps a prefix.
pub proof fn lemma_prefix_extend(s: Seq<char>, p: Seq<char>, q: Seq<char>)
    requires
        has_prefix(s, p),
    ensures
        has_prefix(s + q, p),
{
    assert((s + q).take(p.len() as int) =~= s.take(p.len() as int));
}

/// A text that ends with a piece ends with it.
pub proof fn lemma_suffix_of_concat(p: Seq<char>, m: Seq<char>)
    ensures
        has_suffix(p + m, m),
{
    assert((p + m).skip(p.len() as int) =~= m);
}

/// Whether `p` is a prefix of `s`, comparing character by character.
pub fn starts_with(s: &str, p: &str) -> (r: bool)
    ensures
        r == has_prefix(s@, p@),
{
    let sc = chars_of(s);
    let pc = chars_of(p);
    if pc.len() > sc.len() {
        return false;
    }
    let mut i: usize = 0;
    while i < pc.len()
        invariant
            pc@ == p@,
            sc@ == s@,
            pc.len() <= sc.len(),
            i <= pc.len(),
            forall|k: int| 0 <= k < i ==> sc@[k] == pc@[k],
        decreases pc.len() - i,
    {
        if sc[i] != pc[i] {
            assert(s@.take(p@.len() as int)[i as int] != p@[i as int]);
            return false;
        }
        i = i + 1;
    }
    assert(s@.take(p@.len() as int) =~= p@);
    true
}

/// Whether two string slices hold the same characters.
pub fn same_text(a: &str, b: &str) -> (r: bool)
    ensures
        r == (a@ == b@),
{
    let x = String::from_str(a);
    let y = String::from_str(b);
    x == y
}

} // verus!
