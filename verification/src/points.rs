//! Record ids in the vector database: an id that reads as an unsigned
//! decimal number is stored as a numeric point id, any other id as a text
//! (UUID) point id; reading a point id back gives its decimal or its text.

use crate::text::{chars_of, decimal, decimal_string};
use vstd::prelude::*;

verus! {

/// A point id as the vector database keys points.
#[derive(Debug)]
pub enum PointKey {
    /// A numeric id.
    Num(u64),
    /// A text id.
    Uuid(String),
}

/// Whether a character is an ASCII decimal digit.
pub open spec fn is_digit(c: char) -> bool {
    48 <= c as int <= 57
}

/// Whether every character is an ASCII decimal digit.
pub open spec fn all_digits(s: Seq<char>) -> bool {
    forall|i: int| 0 <= i < s.len() ==> is_digit(#[trigger] s[i])
}

/// The value of a string of decimal digits.
pub open spec fn digits_value(s: Seq<char>) -> nat
    decreases s.len(),
{
    if s.len() == 0 {
        0
    } else {
        digits_value(s.drop_last()) * 10 + (s.last() as int - 48) as nat
    }
}

/// What `str::parse::<u64>` accepts, as its documentation states it: an
/// optional `+` followed by one or more ASCII digits whose value fits in a
/// `u64`; anything else (empty text, a sign alone, another character,
/// overflow) is rejected.
pub open spec fn u64_text_value(s: Seq<char>) -> Option<u64> {
    let body = if s.len() > 0 && s[0] == '+' {
        s.drop_first()
    } else {
        s
    };
    if body.len() > 0 && all_digits(body) && digits_value(body) <= u64::MAX {
        Some(digits_value(body) as u64)
    } else {
        None
    }
}

/// A prefix of a string of digits is worth no more than the whole.
proof fn lemma_digits_value_prefix(s: Seq<char>, k: int)
    requires
        0 <= k <= s.len(),
    ensures
        digits_value(s.take(k)) <= digits_value(s),
    decreases s.len(),
{
    if k < s.len() {
        lemma_digits_value_prefix(s.drop_last(), k);
        assert(s.drop_last().take(k) =~= s.take(k));
    } else {
        assert(s.take(k) =~= s);
    }
}

/// The value of an ASCII decimal digit.
fn digit_value(c: char) -> (r: Option<u64>)
    ensures
        r is Some <==> is_digit(c),
        r matches Some(d) ==> d == c as int - 48,
{
    match c {
        '0' => Some(0),
        '1' => Some(1),
        '2' => Some(2),
        '3' => Some(3),
        '4' => Some(4),
        '5' => Some(5),
        '6' => Some(6),
        '7' => Some(7),
        '8' => Some(8),
        '9' => Some(9),
        _ => None,
    }
}

/// Reads an unsigned decimal number as `str::parse::<u64>` does: an optional
/// `+`, then one or more ASCII digits whose value fits in a `u64`.
fn parse_u64(s: &str) -> (r: Option<u64>)
    ensures
        r == u64_text_value(s@),
{
    let cs = chars_of(s);
    let start: usize = if cs.len() > 0 && cs[0] == '+' {
        1
    } else {
        0
    };
    let ghost body = cs@.skip(start as int);
    assert(body =~= (if s@.len() > 0 && s@[0] == '+' {
        s@.drop_first()
    } else {
        s@
    }));
    if start >= cs.len() {
        return None;
    }
    let mut v: u64 = 0;
    let mut i: usize = start;
    while i < cs.len()
        invariant
            start <= i <= cs.len(),
            cs@ == s@,
            body == cs@.skip(start as int),
            body == (if s@.len() > 0 && s@[0] == '+' {
                s@.drop_first()
            } else {
                s@
            }),
            all_digits(body.take(i - start)),
            v as nat == digits_value(body.take(i - start)),
        decreases cs.len() - i,
    {
        let c = cs[i];
        let Some(d) = digit_value(c) else {
            assert(body[i - start] == c);
            assert(!is_digit(body[i - start]));
            assert(!all_digits(body));
            assert(u64_text_value(s@) is None);
            return None;
        };
        let ghost next = body.take(i - start + 1);
        proof {
            assert(body[i - start] == c);
            assert(next.drop_last() =~= body.take(i - start));
            assert(next.last() == c);
        }
        if v > (u64::MAX - d) / 10 {
            proof {
                assert(v * 10 + d > u64::MAX) by (nonlinear_arith)
                    requires
                        v > (u64::MAX - d) / 10,
                        d <= 9,
                ;
                assert(digits_value(next) > u64::MAX);
                if all_digits(body) {
                    lemma_digits_value_prefix(body, i - start + 1);
                    assert(digits_value(body) > u64::MAX);
                }
                assert(u64_text_value(s@) is None);
            }
            return None;
        }
        v = v * 10 + d;
        i = i + 1;
        proof {
            assert forall|j: int| 0 <= j < next.len() implies is_digit(#[trigger] next[j]) by {
                if j < next.len() - 1 {
                    assert(next[j] == body.take(i - 1 - start)[j]);
                }
            }
        }
    }
    assert(body.take(i - start) =~= body);
    Some(v)
}

/// The point id of a record id.
pub open spec fn point_key_of(id: Seq<char>) -> PointKeyView {
    match u64_text_value(id) {
        Some(n) => PointKeyView::Num(n),
        None => PointKeyView::Uuid(id),
    }
}

/// Abstract value of a point id.
pub enum PointKeyView {
    Num(u64),
    Uuid(Seq<char>),
}

impl View for PointKey {
    type V = PointKeyView;

    open spec fn view(&self) -> PointKeyView {
        match self {
            PointKey::Num(n) => PointKeyView::Num(*n),
            PointKey::Uuid(s) => PointKeyView::Uuid(s@),
        }
    }
}

/// The record id that a point id reads back as; a point without an id
/// reads as empty text.
pub open spec fn point_text(k: Option<PointKeyView>) -> Seq<char> {
    match k {
        Some(PointKeyView::Num(n)) => decimal(n as nat),
        Some(PointKeyView::Uuid(s)) => s,
        None => Seq::empty(),
    }
}

/// The point id under which a record id is stored.
pub fn point_key(id: &str) -> (k: PointKey)
    ensures
        k@ == point_key_of(id@),
{
    match parse_u64(id) {
        Some(n) => PointKey::Num(n),
        None => PointKey::Uuid(String::from_str(id)),
    }
}

/// The record id of a stored point id.
pub fn point_key_text(k: &Option<PointKey>) -> (r: String)
    ensures
        r@ == point_text(
            match k {
                Some(p) => Some(p@),
                None => None,
            },
        ),
{
    match k {
        Some(PointKey::Num(n)) => decimal_string(*n),
        Some(PointKey::Uuid(s)) => s.clone(),
        None => String::new(),
    }
}

/// A decimal numeral in canonical form: digits only, no leading zero
/// unless it is `0` itself.
pub open spec fn canonical_decimal(s: Seq<char>) -> bool {
    s.len() > 0 && all_digits(s) && (s[0] != '0' || s.len() == 1)
}

/// The digit character of a digit's value is that digit.
proof fn lemma_digit_char_of(c: char)
    requires
        is_digit(c),
    ensures
        crate::text::digit_char((c as int - 48) as nat) == c,
{
}

/// A canonical numeral is the decimal rendering of its value.
proof fn lemma_canonical_decimal(s: Seq<char>)
    requires
        canonical_decimal(s),
    ensures
        decimal(digits_value(s)) == s,
        s.len() > 1 ==> digits_value(s) >= 10,
    decreases s.len(),
{
    let c = s.last();
    assert(is_digit(c));
    lemma_digit_char_of(c);
    let d: nat = (c as int - 48) as nat;
    if s.len() == 1 {
        assert(s.drop_last().len() == 0);
        assert(digits_value(s.drop_last()) == 0);
        assert(digits_value(s) == d);
        assert(decimal(d) =~= s);
    } else {
        let t = s.drop_last();
        assert(t[0] == s[0]);
        assert forall|i: int| 0 <= i < t.len() implies is_digit(#[trigger] t[i]) by {
            assert(t[i] == s[i]);
        }
        assert(canonical_decimal(t));
        lemma_canonical_decimal(t);
        let a = digits_value(t);
        if t.len() == 1 {
            assert(t.drop_last().len() == 0);
            assert(digits_value(t.drop_last()) == 0);
            assert(t.last() == t[0]);
            assert(t[0] != '0');
            assert(is_digit(t[0]));
            assert(a == (t[0] as int - 48) as nat);
            assert(a >= 1);
        }
        assert(a >= 1);
        let v = digits_value(s);
        assert(v == a * 10 + d);
        assert(v / 10 == a && v % 10 == d) by (nonlinear_arith)
            requires
                v == a * 10 + d,
                d < 10,
        ;
        assert(decimal(v) == decimal(v / 10).push(crate::text::digit_char(v % 10)));
        assert(s == t.push(c));
    }
}

/// A record id reads back as itself after being stored, unless it is a
/// numeral that the parse accepts in a non-canonical form (a `+` sign or
/// leading zeros, as in `+5` or `007`), which reads back canonical.
pub proof fn lemma_point_id_round_trip(id: Seq<char>)
    requires
        u64_text_value(id) is Some ==> canonical_decimal(id),
    ensures
        point_text(Some(point_key_of(id))) == id,
{
    if let Some(n) = u64_text_value(id) {
        assert(id[0] != '+') by {
            assert(is_digit(id[0]));
        }
        lemma_canonical_decimal(id);
    }
}

} // verus!
