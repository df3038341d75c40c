//! Reading JSON values: the string-valued fields of an object (what the
//! tools, the business backend and the long-term memory read) and the
//! navigation into a value that the stream decoding needs.

use crate::text::same_text;
use vstd::prelude::*;

verus! {

/// The string-valued fields of a JSON object, in order; fields of other
/// types are left out.
#[derive(Debug)]
pub struct JsonFields {
    pub entries: Vec<(String, String)>,
}

/// The value of the first entry with the given key.
pub open spec fn lookup(entries: Seq<(String, String)>, key: Seq<char>) -> Option<Seq<char>>
    decreases entries.len(),
{
    if entries.len() == 0 {
        None
    } else if entries[0].0@ == key {
        Some(entries[0].1@)
    } else {
        lookup(entries.drop_first(), key)
    }
}

/// The value of a key, or a default.
pub open spec fn lookup_or(entries: Seq<(String, String)>, key: Seq<char>, default: Seq<char>) -> Seq<char> {
    match lookup(entries, key) {
        Some(v) => v,
        None => default,
    }
}

/// Name for what `serde_json::Value::as_str` returns: the text of a JSON
/// string, nothing for any other JSON value.
pub uninterp spec fn json_str(v: serde_json::Value) -> Option<Seq<char>>;

/// Name for what `serde_json::Value::as_object` gives: the entries of a JSON
/// object in the map's iteration order, nothing for any other JSON value.
pub uninterp spec fn json_entries(v: serde_json::Value) -> Option<Seq<(Seq<char>, serde_json::Value)>>;

/// Calls `serde_json::Value::as_str` and copies the text it finds.
#[verifier::external_body]
pub(crate) fn value_as_str(v: &serde_json::Value) -> (r: Option<String>)
    ensures
        json_str(*v) == match r {
            Some(s) => Some(s@),
            None => None::<Seq<char>>,
        },
{
    v.as_str().map(String::from)
}

/// Calls `serde_json::Value::as_object` and copies its entries, in the
/// map's iteration order.
#[verifier::external_body]
fn object_entries(v: &serde_json::Value) -> (r: Option<Vec<(String, serde_json::Value)>>)
    ensures
        json_entries(*v) == match r {
            Some(es) => Some(es@.map_values(|e: (String, serde_json::Value)| (e.0@, e.1))),
            None => None::<Seq<(Seq<char>, serde_json::Value)>>,
        },
{
    v.as_object().map(|m| m.iter().map(|(k, x)| (k.clone(), x.clone())).collect())
}

/// Name for what `serde_json::from_str::<serde_json::Value>` returns for a
/// text: the JSON value it holds, or the error that rejects it.
pub uninterp spec fn json_parse(text: Seq<char>) -> Result<serde_json::Value, serde_json::Error>;

/// Calls `serde_json::from_str::<serde_json::Value>`.
#[verifier::external_body]
pub(crate) fn parse_json(text: &str) -> (r: Result<serde_json::Value, serde_json::Error>)
    ensures
        r == json_parse(text@),
{
    serde_json::from_str(text)
}

/// Name for what `serde_json::Value::is_null` says of a JSON value.
pub uninterp spec fn json_is_null(v: serde_json::Value) -> bool;

/// Calls `serde_json::Value::is_null`.
#[verifier::external_body]
fn value_is_null(v: &serde_json::Value) -> (r: bool)
    ensures
        r == json_is_null(*v),
{
    v.is_null()
}

/// Name for what `serde_json::Value::get` finds under a key: the member of
/// an object, nothing for a missing key or any other JSON value.
pub uninterp spec fn json_get(v: serde_json::Value, key: Seq<char>) -> Option<serde_json::Value>;

/// Calls `serde_json::Value::get` with a key.
#[verifier::external_body]
pub(crate) fn value_get<'a>(v: &'a serde_json::Value, key: &str) -> (r: Option<&'a serde_json::Value>)
    ensures
        json_get(*v, key@) == match r {
            Some(x) => Some(*x),
            None => None::<serde_json::Value>,
        },
{
    v.get(key)
}

/// Name for what `serde_json::Value::get` finds at a position: the element
/// of an array, nothing past its end or for any other JSON value.
pub uninterp spec fn json_at(v: serde_json::Value, i: usize) -> Option<serde_json::Value>;

/// Calls `serde_json::Value::get` with a position.
#[verifier::external_body]
pub(crate) fn value_at<'a>(v: &'a serde_json::Value, i: usize) -> (r: Option<&'a serde_json::Value>)
    ensures
        json_at(*v, i) == match r {
            Some(x) => Some(*x),
            None => None::<serde_json::Value>,
        },
{
    v.get(i)
}

/// Name for what `serde_json::Value::as_array` gives: the elements of an
/// array, nothing for any other JSON value.
pub uninterp spec fn json_array(v: serde_json::Value) -> Option<Seq<serde_json::Value>>;

/// Calls `serde_json::Value::as_array`.
#[verifier::external_body]
pub(crate) fn value_as_array<'a>(v: &'a serde_json::Value) -> (r: Option<&'a Vec<serde_json::Value>>)
    ensures
        json_array(*v) == match r {
            Some(a) => Some(a@),
            None => None::<Seq<serde_json::Value>>,
        },
{
    v.as_array()
}

/// Name for what `serde_json::Value::as_u64` gives: the number when it is a
/// nonnegative integer that fits, nothing otherwise.
pub uninterp spec fn json_u64(v: serde_json::Value) -> Option<u64>;

/// Calls `serde_json::Value::as_u64`.
#[verifier::external_body]
pub(crate) fn value_as_u64(v: &serde_json::Value) -> (r: Option<u64>)
    ensures
        r == json_u64(*v),
{
    v.as_u64()
}

/// The member under `key` of an optional value.
pub open spec fn get_in(v: Option<serde_json::Value>, key: Seq<char>) -> Option<serde_json::Value> {
    match v {
        Some(x) => json_get(x, key),
        None => None,
    }
}

/// The text of an optional value, if it is a JSON string.
pub open spec fn str_in(v: Option<serde_json::Value>) -> Option<Seq<char>> {
    match v {
        Some(x) => json_str(x),
        None => None,
    }
}

/// The text under `key` of a JSON value, copied.
pub(crate) fn str_member(v: &serde_json::Value, key: &str) -> (r: Option<String>)
    ensures
        crate::types::opt_text(r) == str_in(json_get(*v, key@)),
{
    match value_get(v, key) {
        Some(x) => value_as_str(x),
        None => None,
    }
}

/// The string-valued entries among `es`, in order.
pub open spec fn string_entries(es: Seq<(Seq<char>, serde_json::Value)>) -> Seq<(Seq<char>, Seq<char>)>
    decreases es.len(),
{
    if es.len() == 0 {
        Seq::empty()
    } else {
        let rest = string_entries(es.drop_last());
        match json_str(es.last().1) {
            Some(t) => rest.push((es.last().0, t)),
            None => rest,
        }
    }
}

/// The string-valued fields of a JSON value: none unless it is an object.
pub open spec fn string_fields(v: serde_json::Value) -> Seq<(Seq<char>, Seq<char>)> {
    match json_entries(v) {
        Some(es) => string_entries(es),
        None => Seq::empty(),
    }
}

/// The entries of a field list, as text pairs.
pub open spec fn entries_view(s: Seq<(String, String)>) -> Seq<(Seq<char>, Seq<char>)> {
    s.map_values(|e: (String, String)| (e.0@, e.1@))
}

impl JsonFields {
    /// The string-valued ones among the given entries, in order.
    pub fn from_entries(es: Vec<(String, serde_json::Value)>) -> (f: Self)
        ensures
            entries_view(f.entries@) == string_entries(
                es@.map_values(|e: (String, serde_json::Value)| (e.0@, e.1)),
            ),
    {
        let ghost all = es@.map_values(|e: (String, serde_json::Value)| (e.0@, e.1));
        let mut f = JsonFields::new();
        assert(entries_view(f.entries@) =~= string_entries(all.take(0)));
        for e in it: es
            invariant
                it.seq() == es@,
                all == es@.map_values(|e: (String, serde_json::Value)| (e.0@, e.1)),
                entries_view(f.entries@) == string_entries(all.take(it.index() as int)),
        {
            let (k, v) = e;
            let ghost idx = it.index() as int;
            proof {
                assert(all.take(idx + 1).drop_last() == all.take(idx));
                assert(all.take(idx + 1).last() == (k@, v));
            }
            match value_as_str(&v) {
                Some(t) => {
                    f.insert(k, t);
                    assert(entries_view(f.entries@) =~= string_entries(all.take(idx)).push(
                        (all[idx].0, json_str(v).unwrap()),
                    ));
                },
                None => {},
            }
        }
        assert(all.take(all.len() as int) == all);
        f
    }

    /// The string-valued fields of a JSON value; none unless it is an object.
    pub fn from_json(v: &serde_json::Value) -> (f: Self)
        ensures
            entries_view(f.entries@) == string_fields(*v),
    {
        match object_entries(v) {
            Some(es) => Self::from_entries(es),
            None => {
                let f = JsonFields::new();
                assert(entries_view(f.entries@) =~= Seq::<(Seq<char>, Seq<char>)>::empty());
                f
            },
        }
    }

    /// A record that a backend returned: nothing for JSON `null`, otherwise
    /// its string-valued fields.
    pub fn record_of(v: &serde_json::Value) -> (r: Option<Self>)
        ensures
            json_is_null(*v) ==> r is None,
            !json_is_null(*v) ==> (r matches Some(f) && entries_view(f.entries@) == string_fields(*v)),
    {
        if value_is_null(v) {
            None
        } else {
            Some(Self::from_json(v))
        }
    }

    /// No fields.
    pub fn new() -> (f: Self)
        ensures
            f.entries@.len() == 0,
    {
        JsonFields { entries: Vec::new() }
    }

    /// Appends a field.
    pub fn insert(&mut self, key: String, value: String)
        ensures
            final(self).entries@ == old(self).entries@.push((key, value)),
    {
        self.entries.push((key, value));
    }

    /// The value of a field, if the object has it as a string.
    pub fn get_str(&self, key: &str) -> (r: Option<String>)
        ensures
            match r {
                Some(v) => lookup(self.entries@, key@) == Some(v@),
                None => lookup(self.entries@, key@) is None,
            },
    {
        let mut i: usize = 0;
        assert(self.entries@.skip(0) == self.entries@);
        while i < self.entries.len()
            invariant
                i <= self.entries@.len(),
                lookup(self.entries@, key@) == lookup(self.entries@.skip(i as int), key@),
            decreases self.entries.len() - i,
        {
            proof {
                assert(self.entries@.skip(i as int).drop_first() == self.entries@.skip(i + 1));
            }
            if same_text(self.entries[i].0.as_str(), key) {
                return Some(self.entries[i].1.clone());
            }
            i = i + 1;
        }
        None
    }

    /// The value of a field, or `default` when the object has no such string
    /// field.
    pub fn get_or(&self, key: &str, default: &str) -> (r: String)
        ensures
            r@ == lookup_or(self.entries@, key@, default@),
    {
        match self.get_str(key) {
            Some(v) => v,
            None => String::from_str(default),
        }
    }
}

} // verus!
