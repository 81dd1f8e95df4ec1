//! Reading the JSON wire document into its wire form.
use serde_json::Value;
use vstd::prelude::*;

use crate::models::Boost;
use crate::wire::{DecodeError, Slot, WireElement, WireQuery};

verus! {

#[verifier::external_type_specification]
#[verifier::external_body]
pub struct ExValue(Value);

pub assume_specification[ Value::as_u64 ](v: &Value) -> Option<u64>;

pub assume_specification[ Value::as_str ](v: &Value) -> Option<&str>;

pub assume_specification[ Value::as_array ](v: &Value) -> Option<&Vec<Value>>;

pub assume_specification[ Value::is_object ](v: &Value) -> bool;

/// serde_json refuses documents nested deeper than this, so a reader with
/// this budget sees every clause of any document it was given.
pub const MAX_DEPTH: usize = 128;

/// Whether serde_json accepts the text as a JSON document.
pub uninterp spec fn json_accepts(s: Seq<char>) -> bool;

/// Relies on `serde_json::from_str` into a `Value`: it succeeds exactly on
/// the texts that serde_json accepts; a syntax error becomes its message.
#[verifier::external_body]
fn parse_value(text: &str) -> (r: Result<Value, String>)
    ensures
        r is Ok <==> json_accepts(text@),
{
    serde_json::from_str::<Value>(text).map_err(|e| e.to_string())
}

/// Relies on `Value::get` with a string key: the member of an object, `None`
/// for a missing key or a value that is not an object.
#[verifier::external_body]
fn member<'a>(v: &'a Value, key: &str) -> (r: Option<&'a Value>) {
    v.get(key)
}

/// Relies on `Value::as_f64`, narrowed to the single-precision score type
/// that boosts are applied with; the result is the bit pattern.
#[verifier::external_body]
fn number_bits(v: &Value) -> (r: Option<u32>) {
    v.as_f64().map(|x| (x as tantivy::Score).to_bits())
}

fn read_u64(v: Option<&Value>) -> (r: Slot<u64>)
    ensures
        v is None <==> r is Missing,
{
    match v {
        None => Slot::Missing,
        Some(x) => match x.as_u64() {
            Some(n) => Slot::Given(n),
            None => Slot::Invalid,
        },
    }
}

fn read_boost(v: Option<&Value>) -> (r: Option<Boost>)
    ensures
        v is None ==> r is None,
{
    match v {
        None => None,
        Some(x) => match number_bits(x) {
            Some(bits) => Some(Boost::from_bits(bits)),
            None => None,
        },
    }
}

fn read_strings(v: Option<&Value>) -> (r: Slot<Vec<String>>) {
    let x = match v {
        None => {
            return Slot::Missing;
        },
        Some(x) => x,
    };
    let items = match x.as_array() {
        None => {
            return Slot::Invalid;
        },
        Some(items) => items,
    };
    let mut out: Vec<String> = Vec::new();
    let mut i: usize = 0;
    while i < items.len()
        invariant
            i <= items@.len(),
        decreases items@.len() - i,
    {
        match items[i].as_str() {
            Some(s) => out.push(s.to_string()),
            None => {
                return Slot::Invalid;
            },
        }
        i += 1;
    }
    Slot::Given(out)
}

fn read_elements(v: Option<&Value>, depth: usize) -> (r: Slot<Vec<WireElement>>)
    decreases depth, 1nat,
{
    let x = match v {
        None => {
            return Slot::Missing;
        },
        Some(x) => x,
    };
    let items = match x.as_array() {
        None => {
            return Slot::Invalid;
        },
        Some(items) => items,
    };
    if depth == 0 {
        return Slot::Invalid;
    }
    let mut out: Vec<WireElement> = Vec::new();
    let mut i: usize = 0;
    while i < items.len()
        invariant
            i <= items@.len(),
            depth > 0,
        decreases items@.len() - i,
    {
        out.push(read_element(&items[i], depth - 1));
        i += 1;
    }
    Slot::Given(out)
}

/// Reads one clause's members as they stand; `depth` bounds the nesting of
/// clause groups that is read.
fn read_element(v: &Value, depth: usize) -> (r: WireElement)
    decreases depth, 2nat,
{
    let q = member(v, "query");
    let (is_object, field_index, text_index, boost, subqueries) = match q {
        None => (false, None, None, None, Slot::Missing),
        Some(q) => (
            q.is_object(),
            member(q, "field_index").and_then(|x: &Value| x.as_u64()),
            member(q, "text_index").and_then(|x: &Value| x.as_u64()),
            read_boost(member(q, "boost")),
            read_elements(member(q, "subqueries"), depth),
        ),
    };
    WireElement {
        query_modifier: read_u64(member(v, "query_modifier")),
        query_type: read_u64(member(v, "query_type")),
        query_is_object: is_object,
        field_index,
        text_index,
        boost,
        subqueries,
    }
}

/// Reads a whole request's members as they stand.
fn read_query(v: &Value) -> (r: WireQuery) {
    let subqueries = match member(v, "query") {
        None => Slot::Missing,
        Some(q) => {
            if q.is_object() {
                read_elements(member(q, "subqueries"), MAX_DEPTH)
            } else {
                Slot::Invalid
            }
        },
    };
    WireQuery {
        texts: read_strings(member(v, "texts")),
        fields: read_strings(member(v, "fields")),
        subqueries,
    }
}

/// Parses JSON text into its wire form; a text that is not JSON is a
/// [`DecodeError::Syntax`].
pub fn read_wire_query(text: &str) -> (r: Result<WireQuery, DecodeError>)
    ensures
        r is Ok <==> json_accepts(text@),
        r matches Err(e) ==> e is Syntax,
{
    match parse_value(text) {
        Ok(v) => Ok(read_query(&v)),
        Err(reason) => Err(DecodeError::Syntax { reason }),
    }
}

} // verus!
