use vstd::prelude::*;

verus! {

broadcast use vstd::std_specs::vec::group_vec_axioms, vstd::seq::group_seq_axioms;

/// Mathematical model of a JSON document: the value tree that a response
/// body denotes, with object fields kept in source order.
#[verifier::ext_equal]
pub enum SpecJson {
    Null,
    Bool(bool),
    UInt(u64),
    Text(Seq<char>),
    Array(Seq<SpecJson>),
    Object(Seq<(Seq<char>, SpecJson)>),
}

/// Executable JSON value tree. Object fields keep the order they had in the
/// source text; duplicate keys are tolerated (the first occurrence wins on
/// lookup, as a streaming reader would see it).
#[derive(Debug, PartialEq, Eq)]
pub enum JsonValue {
    Null,
    Bool(bool),
    UInt(u64),
    Text(String),
    Array(Vec<JsonValue>),
    Object(Vec<(String, JsonValue)>),
}

/// The element-wise view of an array's items.
pub open spec fn arr_view(items: Seq<JsonValue>) -> Seq<SpecJson>
    decreases items,
{
    Seq::new(
        items.len(),
        |i: int|
            if 0 <= i < items.len() {
                items[i]@
            } else {
                SpecJson::Null
            },
    )
}

/// The field-wise view of an object's fields, order kept.
pub open spec fn obj_view(fields: Seq<(String, JsonValue)>) -> Seq<(Seq<char>, SpecJson)>
    decreases fields,
{
    Seq::new(
        fields.len(),
        |i: int|
            if 0 <= i < fields.len() {
                (fields[i].0@, fields[i].1@)
            } else {
                (Seq::empty(), SpecJson::Null)
            },
    )
}

impl View for JsonValue {
    type V = SpecJson;

    open spec fn view(&self) -> SpecJson
        decreases self,
    {
        match self {
            JsonValue::Null => SpecJson::Null,
            JsonValue::Bool(b) => SpecJson::Bool(*b),
            JsonValue::UInt(n) => SpecJson::UInt(*n),
            JsonValue::Text(s) => SpecJson::Text(s@),
            JsonValue::Array(items) => SpecJson::Array(arr_view(items@)),
            JsonValue::Object(fields) => SpecJson::Object(obj_view(fields@)),
        }
    }
}

} // verus!
