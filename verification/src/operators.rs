//! Filter operators for the bracket query syntax `field[operator]=value`,
//! and the text a filter value takes in a query string.

use vstd::prelude::*;

use crate::json::{json_text, lemma_items_view, JsonValue, JsonView, items_view, to_json_text};
use crate::text::{i64_to_decimal, owned, signed_decimal, u64_to_decimal};

verus! {

/// A filter: an operator name and the value it compares with.
#[derive(Debug, Clone)]
pub struct FilterOperator {
    pub operator: String,
    pub value: JsonValue,
}

/// The text a filter value takes in a query string: `null`, `true` and
/// `false`, a number's decimal digits, a string's own characters, the
/// elements of an array each in this form and joined by commas, and the JSON
/// text of an object. A number that is not an integer keeps its JSON text.
pub open spec fn value_text(v: JsonView) -> Seq<char>
    decreases v,
{
    match v {
        JsonView::Null => seq!['n', 'u', 'l', 'l'],
        JsonView::Bool(b) => if b { seq!['t', 'r', 'u', 'e'] } else { seq!['f', 'a', 'l', 's', 'e'] },
        JsonView::Number(n) => signed_decimal(n),
        JsonView::Fraction(t) => t,
        JsonView::Str(s) => s,
        JsonView::Array(items) => joined_texts(items),
        JsonView::Object(_) => json_text(v),
    }
}

/// The texts of `items`, joined by commas.
pub open spec fn joined_texts(items: Seq<JsonView>) -> Seq<char>
    decreases items,
{
    if items.len() == 0 {
        Seq::empty()
    } else if items.len() == 1 {
        value_text(items[0])
    } else {
        joined_texts(items.drop_last()) + seq![','] + value_text(items.last())
    }
}

impl FilterOperator {
    pub fn new(operator: &str, value: JsonValue) -> (r: FilterOperator)
        ensures
            r.operator@ == operator@,
            r.value@ == value@,
    {
        FilterOperator { operator: owned(operator), value }
    }
}

pub fn eq(value: JsonValue) -> (r: FilterOperator)
    ensures
        r.operator@ == "eq"@,
        r.value@ == value@,
{
    FilterOperator::new("eq", value)
}

pub fn ne(value: JsonValue) -> (r: FilterOperator)
    ensures
        r.operator@ == "ne"@,
        r.value@ == value@,
{
    FilterOperator::new("ne", value)
}

pub fn gt(value: JsonValue) -> (r: FilterOperator)
    ensures
        r.operator@ == "gt"@,
        r.value@ == value@,
{
    FilterOperator::new("gt", value)
}

pub fn gte(value: JsonValue) -> (r: FilterOperator)
    ensures
        r.operator@ == "gte"@,
        r.value@ == value@,
{
    FilterOperator::new("gte", value)
}

pub fn lt(value: JsonValue) -> (r: FilterOperator)
    ensures
        r.operator@ == "lt"@,
        r.value@ == value@,
{
    FilterOperator::new("lt", value)
}

pub fn lte(value: JsonValue) -> (r: FilterOperator)
    ensures
        r.operator@ == "lte"@,
        r.value@ == value@,
{
    FilterOperator::new("lte", value)
}

pub fn like(value: JsonValue) -> (r: FilterOperator)
    ensures
        r.operator@ == "like"@,
        r.value@ == value@,
{
    FilterOperator::new("like", value)
}

pub fn ilike(value: JsonValue) -> (r: FilterOperator)
    ensures
        r.operator@ == "ilike"@,
        r.value@ == value@,
{
    FilterOperator::new("ilike", value)
}

pub fn contains(value: JsonValue) -> (r: FilterOperator)
    ensures
        r.operator@ == "contains"@,
        r.value@ == value@,
{
    FilterOperator::new("contains", value)
}

pub fn starts_with(value: JsonValue) -> (r: FilterOperator)
    ensures
        r.operator@ == "startsWith"@,
        r.value@ == value@,
{
    FilterOperator::new("startsWith", value)
}

pub fn ends_with(value: JsonValue) -> (r: FilterOperator)
    ensures
        r.operator@ == "endsWith"@,
        r.value@ == value@,
{
    FilterOperator::new("endsWith", value)
}

/// Membership: the value is the array of `values`, in order.
pub fn in_op(values: Vec<JsonValue>) -> (r: FilterOperator)
    ensures
        r.operator@ == "in"@,
        r.value@ == JsonView::Array(items_view(values@)),
{
    FilterOperator::new("in", JsonValue::Array(values))
}

/// Non-membership: the value is the array of `values`, in order.
pub fn not_in(values: Vec<JsonValue>) -> (r: FilterOperator)
    ensures
        r.operator@ == "nin"@,
        r.value@ == JsonView::Array(items_view(values@)),
{
    FilterOperator::new("nin", JsonValue::Array(values))
}

pub fn is_null() -> (r: FilterOperator)
    ensures
        r.operator@ == "null"@,
        r.value@ == JsonView::Bool(true),
{
    FilterOperator::new("null", JsonValue::Bool(true))
}

pub fn not_null() -> (r: FilterOperator)
    ensures
        r.operator@ == "notNull"@,
        r.value@ == JsonView::Bool(true),
{
    FilterOperator::new("notNull", JsonValue::Bool(true))
}

/// A range: the value is the two-element array `[min, max]`.
pub fn between(min: JsonValue, max: JsonValue) -> (r: FilterOperator)
    ensures
        r.operator@ == "between"@,
        r.value@ == JsonView::Array(seq![min@, max@]),
{
    let mut v: Vec<JsonValue> = Vec::new();
    v.push(min);
    v.push(max);
    proof {
        lemma_items_view(v@);
        assert(items_view(v@) =~= seq![min@, max@]);
    }
    FilterOperator::new("between", JsonValue::Array(v))
}

/// The complement of a range: the value is the two-element array
/// `[min, max]`.
pub fn not_between(min: JsonValue, max: JsonValue) -> (r: FilterOperator)
    ensures
        r.operator@ == "notBetween"@,
        r.value@ == JsonView::Array(seq![min@, max@]),
{
    let mut v: Vec<JsonValue> = Vec::new();
    v.push(min);
    v.push(max);
    proof {
        lemma_items_view(v@);
        assert(items_view(v@) =~= seq![min@, max@]);
    }
    FilterOperator::new("notBetween", JsonValue::Array(v))
}

/// A filter with an operator of the caller's choosing.
pub fn op(operator: &str, value: JsonValue) -> (r: FilterOperator)
    ensures
        r.operator@ == operator@,
        r.value@ == value@,
{
    FilterOperator::new(operator, value)
}

/// The text of a filter value in a query string.
pub fn format_value(value: &JsonValue) -> (r: String)
    ensures
        r@ == value_text(value@),
    decreases value,
{
    match value {
        JsonValue::Null => {
            let r = owned("null");
            proof { reveal_strlit("null"); }
            r
        },
        JsonValue::Bool(b) => {
            if *b {
                let r = owned("true");
                proof { reveal_strlit("true"); }
                r
            } else {
                let r = owned("false");
                proof { reveal_strlit("false"); }
                r
            }
        },
        JsonValue::Number(n) => {
            match n {
                crate::json::JsonNumber::PosInt(u) => u64_to_decimal(*u),
                crate::json::JsonNumber::NegInt(i) => i64_to_decimal(*i),
                crate::json::JsonNumber::Float(t) => t.clone(),
            }
        },
        JsonValue::String(s) => s.clone(),
        JsonValue::Array(items) => {
            proof {
                lemma_items_view(items@);
            }
            let ghost iv = items_view(items@);
            let mut out = String::new();
            let mut i: usize = 0;
            while i < items.len()
                invariant
                    i <= items.len(),
                    *value is Array && value->Array_0 == *items,
                    iv == items_view(items@),
                    iv.len() == items.len(),
                    forall|j: int| 0 <= j < items.len() ==> #[trigger] iv[j] == items@[j]@,
                    out@ == joined_texts(iv.take(i as int)),
                decreases items.len() - i,
            {
                proof {
                    assert(decreases_to!(*value => value->Array_0));
                    assert(decreases_to!(value->Array_0 => value->Array_0@));
                    assert(decreases_to!(items@ => items@[i as int]));
                }
                let part = format_value(&items[i]);
                proof {
                    assert(iv.take(i + 1).drop_last() == iv.take(i as int));
                    assert(iv.take(i + 1).last() == iv[i as int]);
                }
                if i > 0 {
                    out.append(",");
                    proof { reveal_strlit(","); }
                }
                out.append(part.as_str());
                i = i + 1;
            }
            assert(iv.take(items.len() as int) == iv);
            out
        },
        JsonValue::Object(_) => to_json_text(value),
    }
}

} // verus!
