//! A JSON document as the library reads it: the shape of
//! `serde_json::Value`, with integral numbers.

use vstd::prelude::*;

use crate::text::{owned, signed_decimal};

verus! {

/// A JSON number, split as `serde_json` stores it: non-negative integers as
/// `PosInt`, negative ones as `NegInt`, and any other number as the text
/// `serde_json` writes for it.
#[derive(Debug)]
pub enum JsonNumber {
    PosInt(u64),
    NegInt(i64),
    Float(String),
}

/// A JSON document.
#[derive(Debug)]
pub enum JsonValue {
    Null,
    Bool(bool),
    Number(JsonNumber),
    String(String),
    Array(Vec<JsonValue>),
    Object(Vec<(String, JsonValue)>),
}

/// The mathematical content of a JSON document.
pub enum JsonView {
    Null,
    Bool(bool),
    Number(int),
    /// A number that is not an integer, by its JSON text.
    Fraction(Seq<char>),
    Str(Seq<char>),
    Array(Seq<JsonView>),
    Object(Seq<(Seq<char>, JsonView)>),
}

/// The content of a JSON number.
pub open spec fn number_view(n: JsonNumber) -> JsonView {
    match n {
        JsonNumber::PosInt(u) => JsonView::Number(u as int),
        JsonNumber::NegInt(i) => JsonView::Number(i as int),
        JsonNumber::Float(t) => JsonView::Fraction(t@),
    }
}

/// The content of a JSON document.
pub open spec fn json_view(v: JsonValue) -> JsonView
    decreases v,
{
    match v {
        JsonValue::Null => JsonView::Null,
        JsonValue::Bool(b) => JsonView::Bool(b),
        JsonValue::Number(n) => number_view(n),
        JsonValue::String(s) => JsonView::Str(s@),
        JsonValue::Array(items) => JsonView::Array(items_view(items@)),
        JsonValue::Object(entries) => JsonView::Object(entries_view(entries@)),
    }
}

/// The contents of the elements of a JSON array, in order.
pub open spec fn items_view(items: Seq<JsonValue>) -> Seq<JsonView>
    decreases items,
{
    if items.len() == 0 {
        Seq::empty()
    } else {
        items_view(items.drop_last()).push(json_view(items.last()))
    }
}

/// The contents of the members of a JSON object, in order.
pub open spec fn entries_view(entries: Seq<(String, JsonValue)>) -> Seq<(Seq<char>, JsonView)>
    decreases entries,
{
    if entries.len() == 0 {
        Seq::empty()
    } else {
        entries_view(entries.drop_last()).push((entries.last().0@, json_view(entries.last().1)))
    }
}

impl View for JsonValue {
    type V = JsonView;

    open spec fn view(&self) -> JsonView {
        json_view(*self)
    }
}

pub proof fn lemma_items_view(items: Seq<JsonValue>)
    ensures
        items_view(items).len() == items.len(),
        forall|i: int| 0 <= i < items.len() ==> #[trigger] items_view(items)[i] == json_view(items[i]),
    decreases items.len(),
{
    if items.len() > 0 {
        lemma_items_view(items.drop_last());
    }
}

pub proof fn lemma_entries_view(entries: Seq<(String, JsonValue)>)
    ensures
        entries_view(entries).len() == entries.len(),
        forall|i: int| 0 <= i < entries.len() ==> #[trigger] entries_view(entries)[i] == (entries[i].0@, json_view(entries[i].1)),
    decreases entries.len(),
{
    if entries.len() > 0 {
        lemma_entries_view(entries.drop_last());
    }
}

/// The value of the first member named `key` of a list of object members.
pub open spec fn member(entries: Seq<(Seq<char>, JsonView)>, key: Seq<char>) -> Option<JsonView>
    decreases entries.len(),
{
    if entries.len() == 0 {
        None
    } else if entries[0].0 == key {
        Some(entries[0].1)
    } else {
        member(entries.drop_first(), key)
    }
}

/// What `Value::get` gives for a key: the member of an object, and nothing
/// for any other kind of document.
pub open spec fn json_get(v: JsonView, key: Seq<char>) -> Option<JsonView> {
    match v {
        JsonView::Object(entries) => member(entries, key),
        _ => None,
    }
}

/// The text of a JSON string, and nothing for any other kind of document.
pub open spec fn json_as_str(v: JsonView) -> Option<Seq<char>> {
    match v {
        JsonView::Str(s) => Some(s),
        _ => None,
    }
}

/// `Value::as_i64`: the number when it is integral and fits in an `i64`.
pub open spec fn json_as_i64(v: JsonView) -> Option<int> {
    match v {
        JsonView::Number(n) => if i64::MIN <= n <= i64::MAX { Some(n) } else { None },
        _ => None,
    }
}

/// The compact JSON text that `serde_json` writes for a document
/// (`Value::to_string`).
pub uninterp spec fn json_text(v: JsonView) -> Seq<char>;

#[verifier::external_type_specification]
#[verifier::external_body]
pub struct ExSerdeJsonValue(serde_json::Value);

/// Builds the `serde_json::Value` with the same content, member for member
/// (a fraction from the text it was read from).
#[verifier::external_body]
fn to_serde_json(v: &JsonValue) -> serde_json::Value {
    match v {
        JsonValue::Null => serde_json::Value::Null,
        JsonValue::Bool(b) => serde_json::Value::Bool(*b),
        JsonValue::Number(JsonNumber::PosInt(u)) => serde_json::Value::from(*u),
        JsonValue::Number(JsonNumber::NegInt(i)) => serde_json::Value::from(*i),
        JsonValue::Number(JsonNumber::Float(t)) => serde_json::from_str(t).unwrap_or(serde_json::Value::Null),
        JsonValue::String(s) => serde_json::Value::String(s.clone()),
        JsonValue::Array(items) => items.iter().map(to_serde_json).collect(),
        JsonValue::Object(entries) => entries.iter().map(|(k, x)| (k.clone(), to_serde_json(x))).collect(),
    }
}

/// `serde_json::to_string` on the document: its compact JSON text, named
/// `json_text` of its content. Writing a `serde_json::Value` does not fail.
#[verifier::external_body]
pub(crate) fn to_json_text(v: &JsonValue) -> (r: String)
    ensures
        r@ == json_text(v@),
{
    match serde_json::to_string(&to_serde_json(v)) {
        Ok(text) => text,
        Err(_) => String::new(),
    }
}

impl Clone for JsonValue {
    fn clone(&self) -> (r: JsonValue)
        ensures
            r@ == self@,
    {
        self.duplicate()
    }
}

impl Clone for JsonNumber {
    fn clone(&self) -> (r: JsonNumber)
        ensures
            number_view(r) == number_view(*self),
    {
        match self {
            JsonNumber::PosInt(u) => JsonNumber::PosInt(*u),
            JsonNumber::NegInt(i) => JsonNumber::NegInt(*i),
            JsonNumber::Float(t) => JsonNumber::Float(t.clone()),
        }
    }
}

impl JsonNumber {
    /// The number as an `i64` when it is an integer that fits
    /// (`Number::as_i64`).
    pub fn as_i64(&self) -> (r: Option<i64>)
        ensures
            match r {
                Some(i) => json_as_i64(number_view(*self)) == Some(i as int),
                None => json_as_i64(number_view(*self)).is_none(),
            },
    {
        match self {
            JsonNumber::PosInt(u) => {
                if *u <= 9223372036854775807u64 {
                    Some(*u as i64)
                } else {
                    None
                }
            },
            JsonNumber::NegInt(i) => Some(*i),
            JsonNumber::Float(_) => None,
        }
    }
}

impl JsonValue {
    /// The JSON number `n`.
    pub fn from_i64(n: i64) -> (r: JsonValue)
        ensures
            r@ == JsonView::Number(n as int),
    {
        if n >= 0 {
            JsonValue::Number(JsonNumber::PosInt(n as u64))
        } else {
            JsonValue::Number(JsonNumber::NegInt(n))
        }
    }

    /// The JSON number `n`.
    pub fn from_u64(n: u64) -> (r: JsonValue)
        ensures
            r@ == JsonView::Number(n as int),
    {
        JsonValue::Number(JsonNumber::PosInt(n))
    }

    /// The JSON boolean `b`.
    pub fn from_bool(b: bool) -> (r: JsonValue)
        ensures
            r@ == JsonView::Bool(b),
    {
        JsonValue::Bool(b)
    }

    /// The JSON string holding `s`.
    pub fn from_text(s: &str) -> (r: JsonValue)
        ensures
            r@ == JsonView::Str(s@),
    {
        JsonValue::String(owned(s))
    }

    /// A copy with the same content.
    pub fn duplicate(&self) -> (r: JsonValue)
        ensures
            r@ == self@,
        decreases self,
    {
        match self {
            JsonValue::Null => JsonValue::Null,
            JsonValue::Bool(b) => JsonValue::Bool(*b),
            JsonValue::Number(n) => JsonValue::Number(n.clone()),
            JsonValue::String(s) => JsonValue::String(s.clone()),
            JsonValue::Array(items) => {
                let mut out: Vec<JsonValue> = Vec::new();
                let mut i: usize = 0;
                while i < items.len()
                    invariant
                        i <= items.len(),
                        *self is Array && self->Array_0 == *items,
                        items_view(out@) == items_view(items@.take(i as int)),
                    decreases items.len() - i,
                {
                    proof {
                        assert(decreases_to!(*self => self->Array_0));
                        assert(decreases_to!(self->Array_0 => self->Array_0@));
                        assert(decreases_to!(items@ => items@[i as int]));
                    }
                    let x = items[i].duplicate();
                    proof {
                        assert(out@.push(x).drop_last() == out@);
                        assert(items@.take(i + 1).drop_last() == items@.take(i as int));
                    }
                    out.push(x);
                    i = i + 1;
                }
                assert(items@.take(items.len() as int) == items@);
                JsonValue::Array(out)
            },
            JsonValue::Object(entries) => {
                let mut out: Vec<(String, JsonValue)> = Vec::new();
                let mut i: usize = 0;
                while i < entries.len()
                    invariant
                        i <= entries.len(),
                        *self is Object && self->Object_0 == *entries,
                        entries_view(out@) == entries_view(entries@.take(i as int)),
                    decreases entries.len() - i,
                {
                    proof {
                        assert(decreases_to!(*self => self->Object_0));
                        assert(decreases_to!(self->Object_0 => self->Object_0@));
                        assert(decreases_to!(entries@ => entries@[i as int]));
                        assert(decreases_to!(entries@[i as int] => entries@[i as int].1));
                    }
                    let x = entries[i].1.duplicate();
                    let k = entries[i].0.clone();
                    proof {
                        assert(out@.push((k, x)).drop_last() == out@);
                        assert(entries@.take(i + 1).drop_last() == entries@.take(i as int));
                    }
                    out.push((k, x));
                    i = i + 1;
                }
                assert(entries@.take(entries.len() as int) == entries@);
                JsonValue::Object(out)
            },
        }
    }

    /// The member named `key` of an object, and nothing for any other kind
    /// of document (`Value::get` with a key).
    pub fn get(&self, key: &str) -> (r: Option<&JsonValue>)
        ensures
            match r {
                Some(x) => json_get(self@, key@) == Some(x@),
                None => json_get(self@, key@).is_none(),
            },
    {
        match self {
            JsonValue::Object(entries) => {
                proof {
                    lemma_entries_view(entries@);
                }
                let ghost ev = entries_view(entries@);
                assert(ev.skip(0) == ev);
                let mut i: usize = 0;
                while i < entries.len()
                    invariant
                        i <= entries.len(),
                        *self is Object && self->Object_0 == *entries,
                        ev == entries_view(entries@),
                        ev.len() == entries.len(),
                        forall|j: int| 0 <= j < entries.len() ==> #[trigger] ev[j] == (entries@[j].0@, json_view(entries@[j].1)),
                        member(ev, key@) == member(ev.skip(i as int), key@),
                    decreases entries.len() - i,
                {
                    proof {
                        assert(ev.skip(i as int).drop_first() == ev.skip(i + 1));
                    }
                    if crate::text::str_eq(entries[i].0.as_str(), key) {
                        assert(ev.skip(i as int)[0] == ev[i as int]);
                        return Some(&entries[i].1);
                    }
                    i = i + 1;
                }
                None
            },
            _ => None,
        }
    }

    /// The text of a JSON string (`Value::as_str`).
    pub fn as_str(&self) -> (r: Option<&String>)
        ensures
            match r {
                Some(s) => json_as_str(self@) == Some(s@),
                None => json_as_str(self@).is_none(),
            },
    {
        match self {
            JsonValue::String(s) => Some(s),
            _ => None,
        }
    }
}

} // verus!
