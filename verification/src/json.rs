//! Reading samples out of a decoded reply.
//!
//! A reply is a JSON document of the shape
//! `{"buffer": {"<wire name>": {"buffer": [<number>, ...]}, ...}}`.
//! The outer `buffer` member is the envelope; each of its members holds the
//! samples of one channel, of which only the first is read.

use crate::sample::Sample;
use serde_json::Value;
use vstd::prelude::*;

verus! {

/// `serde_json::Value`, a decoded JSON document. Nothing of it is visible
/// here: the library looks into one through the three calls below only.
#[verifier::external_type_specification]
#[verifier::external_body]
pub struct ExValue(serde_json::Value);

/// The members of a JSON object, by key. A value that is no object has none.
pub uninterp spec fn json_object(value: Value) -> Map<Seq<char>, Value>;

/// The elements of a JSON array, in order. A value that is no array has none.
pub uninterp spec fn json_array(value: Value) -> Seq<Value>;

/// The bit pattern of the binary64 number that a JSON number is read as.
/// A value that is no number has none.
pub uninterp spec fn json_number(value: Value) -> Option<u64>;

/// Calls `serde_json::Value::get` with a string index, which looks the key
/// up among the members of an object and finds nothing in any other value.
#[verifier::external_body]
fn member<'a>(value: &'a Value, key: &str) -> (found: Option<&'a Value>)
    ensures
        found is Some <==> json_object(*value).contains_key(key@),
        found matches Some(m) ==> *m == json_object(*value)[key@],
{
    value.get(key)
}

/// Calls `serde_json::Value::get` with a position, which indexes the
/// elements of an array and finds nothing in any other value.
#[verifier::external_body]
fn element<'a>(value: &'a Value, index: usize) -> (found: Option<&'a Value>)
    ensures
        found is Some <==> index < json_array(*value).len(),
        found matches Some(e) ==> *e == json_array(*value)[index as int],
{
    value.get(index)
}

/// Calls `serde_json::Value::as_f64`, which reads a number as a binary64
/// float and yields nothing for any other value, and hands the float on as
/// its bit pattern.
#[verifier::external_body]
fn number(value: &Value) -> (bits: Option<u64>)
    ensures
        bits == json_number(*value),
{
    value.as_f64().map(|x| x.to_bits())
}

/// The member of `value` under `key`, if `value` is an object that has one.
pub open spec fn member_of(value: Value, key: Seq<char>) -> Option<Value> {
    if json_object(value).contains_key(key) {
        Some(json_object(value)[key])
    } else {
        None
    }
}

/// The element of `value` at `index`, if `value` is an array that long.
pub open spec fn element_of(value: Value, index: int) -> Option<Value> {
    if 0 <= index < json_array(value).len() {
        Some(json_array(value)[index])
    } else {
        None
    }
}

/// The sample that `value` stands for, if `value` is a number.
pub open spec fn sample_of(value: Value) -> Option<Sample> {
    match json_number(value) {
        Some(bits) => Some(Sample { bits }),
        None => None,
    }
}

/// The envelope of a reply: its `buffer` member.
pub open spec fn envelope_of(reply: Value) -> Option<Value> {
    member_of(reply, "buffer"@)
}

/// The value that an envelope holds for the channel called `name`: the
/// first element of the `buffer` member of the channel's entry, read as a
/// number. Absent where any step of that path is missing, or where the
/// element is no number.
pub open spec fn reading(envelope: Value, name: Seq<char>) -> Option<Sample> {
    match member_of(envelope, name) {
        Some(entry) => match member_of(entry, "buffer"@) {
            Some(samples) => match element_of(samples, 0) {
                Some(first) => sample_of(first),
                None => None,
            },
            None => None,
        },
        None => None,
    }
}

/// Finds the envelope of a reply.
pub fn find_envelope(reply: &Value) -> (found: Option<&Value>)
    ensures
        found is Some <==> envelope_of(*reply) is Some,
        found matches Some(e) ==> envelope_of(*reply) == Some(*e),
{
    member(reply, "buffer")
}

/// Reads the value that an envelope holds for the channel called `name`.
pub fn read_sample(envelope: &Value, name: &str) -> (sample: Option<Sample>)
    ensures
        sample == reading(*envelope, name@),
{
    match member(envelope, name) {
        Some(entry) => match member(entry, "buffer") {
            Some(samples) => match element(samples, 0) {
                Some(first) => match number(first) {
                    Some(bits) => Some(Sample::from_bits(bits)),
                    None => None,
                },
                None => None,
            },
            None => None,
        },
        None => None,
    }
}

} // verus!
