//! The data that templates are rendered against: JSON values of the
//! `serde_json` crate, made of nulls, texts and objects, with the tree that
//! each one stands for as its model.

use vstd::prelude::*;
use crate::string_map::{distinct_keys, entries_map, entries_map_step, StringMap};

verus! {

/// The tree that a JSON value stands for.
pub enum Json {
    Null,
    Text(Seq<char>),
    Object(Map<Seq<char>, Json>),
}

#[verifier::external_type_specification]
#[verifier::external_body]
pub struct ExValue(serde_json::Value);

/// The tree that `value` stands for. An object stands for its fields by their
/// names: the crate keeps them in the order of the names, not in the order in
/// which they came.
pub uninterp spec fn json_model(value: serde_json::Value) -> Json;

/// The fields of an object that is made of `fields` in order: of two fields
/// with one name the later one stays.
pub open spec fn fields_model(fields: Seq<(String, serde_json::Value)>) -> Map<Seq<char>, Json>
    decreases fields.len(),
{
    if fields.len() == 0 {
        Map::empty()
    } else {
        fields_model(fields.drop_last()).insert(fields.last().0@, json_model(fields.last().1))
    }
}

/// The object whose fields are the entries of `map`, each value a text.
pub open spec fn map_model(map: Map<Seq<char>, Seq<char>>) -> Json {
    Json::Object(map.map_values(|text: Seq<char>| Json::Text(text)))
}

/// The text, or null where there is none.
pub open spec fn optional_model(text: Option<String>) -> Json {
    match text {
        Some(text) => Json::Text(text@),
        None => Json::Null,
    }
}

/// Makes `serde_json::Value::Null`, which stands for null.
#[verifier::external_body]
pub(crate) fn json_null() -> (value: serde_json::Value)
    ensures
        json_model(value) == Json::Null,
{
    serde_json::Value::Null
}

/// Makes a `serde_json::Value::String` of `text`, which stands for that text.
#[verifier::external_body]
pub(crate) fn json_text(text: &str) -> (value: serde_json::Value)
    ensures
        json_model(value) == Json::Text(text@),
{
    serde_json::Value::String(text.to_owned())
}

/// Calls `serde_json::Map::new`, then `serde_json::Map::insert` for each of
/// `fields` in order, and makes a `serde_json::Value::Object` of the map. An
/// insert replaces the value that the map holds for the name, so that of two
/// fields with one name the later one stays.
#[verifier::external_body]
pub(crate) fn json_object(fields: Vec<(String, serde_json::Value)>) -> (value: serde_json::Value)
    ensures
        json_model(value) == Json::Object(fields_model(fields@)),
{
    let mut map = serde_json::Map::new();
    for (name, value) in fields {
        map.insert(name, value);
    }
    serde_json::Value::Object(map)
}

/// The JSON value of a text that may be absent: null where it is.
pub fn optional_value(text: &Option<String>) -> (value: serde_json::Value)
    ensures
        json_model(value) == optional_model(*text),
{
    match text {
        Some(text) => json_text(text.as_str()),
        None => json_null(),
    }
}

/// The JSON object of a map from text to text.
pub fn map_value(map: &StringMap) -> (value: serde_json::Value)
    ensures
        json_model(value) == map_model(map@),
{
    let n: usize = map.len();
    let mut fields: Vec<(String, serde_json::Value)> = Vec::new();
    let mut i: usize = 0;
    let ghost text = |text: Seq<char>| Json::Text(text);
    proof {
        use_type_invariant(map);
        map.listing_is_view();
        assert(map.listing().take(0) =~= Seq::<(String, String)>::empty());
        assert(entries_map(map.listing().take(0)).map_values(text) =~= fields_model(fields@));
    }
    while i < n
        invariant
            i <= n,
            n == map.listing().len(),
            distinct_keys(map.listing()),
            text == |text: Seq<char>| Json::Text(text),
            fields_model(fields@) == entries_map(map.listing().take(i as int)).map_values(text),
        decreases n - i,
    {
        let entry = map.entry(i);
        let ghost before = fields@;
        fields.push((entry.0.clone(), json_text(entry.1.as_str())));
        proof {
            entries_map_step(map.listing(), i as int);
            assert(fields@.drop_last() =~= before);
            assert(fields_model(fields@) =~= entries_map(map.listing().take(i + 1)).map_values(
                text,
            ));
        }
        i += 1;
    }
    proof {
        assert(map.listing().take(n as int) =~= map.listing());
    }
    json_object(fields)
}

} // verus!
