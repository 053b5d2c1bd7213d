//! The JSON values of the `tinyjson` crate, as far as the export builds them.
//!
//! A JSON value is opaque to the proofs. What it holds has a name,
//! `json_model`, and the functions that make a value say what the value
//! made holds. These statements are taken from `tinyjson` and are not proved.

use vstd::prelude::*;
use tinyjson::JsonValue;

verus! {

#[verifier::external_type_specification]
#[verifier::external_body]
pub struct ExJsonValue(tinyjson::JsonValue);

/// What a JSON value holds, as plain data: the text of a string, the items
/// of an array in their order, the members of an object by their keys.
pub enum JsonModel {
    Text(Seq<char>),
    List(Seq<JsonModel>),
    Record(Map<Seq<char>, JsonModel>),
}

/// What a `tinyjson::JsonValue` holds. Only strings, arrays and objects are
/// spoken of; of a number, a boolean or null nothing is said.
pub uninterp spec fn json_model(value: JsonValue) -> JsonModel;

/// Whether a `tinyjson::JsonValue` holds no number, neither itself nor
/// anywhere inside its items or members. A number is the one thing that the
/// writer may refuse.
pub uninterp spec fn json_numberless(value: JsonValue) -> bool;

/// The texts that the writer of `tinyjson` may give for a value that holds
/// this: each of them is this value written out, and they differ in no more
/// than the order of an object's members, which the writer does not fix.
pub uninterp spec fn json_texts(model: JsonModel) -> Set<Seq<char>>;

/// What each value of a sequence holds, in the same order.
pub open spec fn json_models(items: Seq<JsonValue>) -> Seq<JsonModel> {
    Seq::new(items.len(), |i: int| json_model(items[i]))
}

/// Whether no key stands twice among the entries.
pub open spec fn distinct_keys(entries: Seq<(String, JsonValue)>) -> bool {
    forall|i: int, j: int| 0 <= i < j < entries.len() ==> entries[i].0@ != entries[j].0@
}

/// The members that the entries give: each key with what its value holds.
pub open spec fn members_of(entries: Seq<(String, JsonValue)>) -> Map<Seq<char>, JsonModel>
    decreases entries.len(),
{
    if entries.len() == 0 {
        Map::empty()
    } else {
        members_of(entries.drop_last()).insert(
            entries.last().0@,
            json_model(entries.last().1),
        )
    }
}

/// Makes `tinyjson::JsonValue::String` of a text: a string value that holds
/// this text, and so no number.
#[verifier::external_body]
pub(crate) fn json_string(text: String) -> (value: JsonValue)
    ensures
        json_model(value) == JsonModel::Text(text@),
        json_numberless(value),
{
    JsonValue::String(text)
}

/// Makes `tinyjson::JsonValue::Array` of values: an array value that holds
/// these items in this order. It holds no number where no item does.
#[verifier::external_body]
pub(crate) fn json_array(items: Vec<JsonValue>) -> (value: JsonValue)
    ensures
        json_model(value) == JsonModel::List(json_models(items@)),
        (forall|i: int| 0 <= i < items@.len() ==> json_numberless(#[trigger] items@[i]))
            ==> json_numberless(value),
{
    JsonValue::Array(items)
}

/// Makes `tinyjson::JsonValue::Object` of keys with their values, collected
/// into the hash map that the object holds. Where no key stands twice, the
/// object holds each key with its value and nothing else. Of what entries
/// with a repeated key give nothing is claimed, but that the object holds no
/// number where no entry's value does.
#[verifier::external_body]
pub(crate) fn json_object(entries: Vec<(String, JsonValue)>) -> (value: JsonValue)
    ensures
        distinct_keys(entries@) ==> json_model(value) == JsonModel::Record(members_of(entries@)),
        (forall|i: int| 0 <= i < entries@.len() ==> json_numberless((#[trigger] entries@[i]).1))
            ==> json_numberless(value),
{
    JsonValue::Object(entries.into_iter().collect())
}

/// Calls `tinyjson::JsonValue::format`, which writes the value as indented
/// text, and gives `None` where it reports an error. The writer reports an
/// error only for a number that is infinite or not a number, so a value
/// without numbers is always written. The text is one of those that the
/// writer may give for what the value holds; which of them is not claimed,
/// since the order in which an object's keys are written is not fixed.
#[verifier::external_body]
pub(crate) fn json_format(value: &JsonValue) -> (text: Option<String>)
    ensures
        json_numberless(*value) ==> text is Some,
        text matches Some(t) ==> json_texts(json_model(*value)).contains(t@),
{
    value.format().ok()
}

} // verus!
