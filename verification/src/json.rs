//! JSON text as the bridge writes it.
//!
//! serde_json does the writing. What it is handed are plain values: names
//! with texts, and names with records of texts.

use serde_json::Value;
use vstd::prelude::*;

verus! {

/// Names and texts as sequences of characters.
pub open spec fn pairs_view(pairs: Seq<(String, String)>) -> Seq<(Seq<char>, Seq<char>)> {
    pairs.map_values(|pair: (String, String)| (pair.0@, pair.1@))
}

/// Named records as sequences of characters.
pub open spec fn records_view(records: Seq<(String, Vec<(String, String)>)>) -> Seq<
    (Seq<char>, Seq<(Seq<char>, Seq<char>)>),
> {
    records.map_values(|record: (String, Vec<(String, String)>)| (record.0@, pairs_view(record.1@)))
}

/// The pretty-printed text of the JSON object that is built by inserting
/// first each of `texts` as a string member, then each of `records` as a
/// member that is an object of strings.
pub uninterp spec fn pretty_object(
    texts: Seq<(Seq<char>, Seq<char>)>,
    records: Seq<(Seq<char>, Seq<(Seq<char>, Seq<char>)>)>,
) -> Seq<char>;

/// `serde_json::to_string_pretty` on the `serde_json::Value` object into
/// which first each of `texts` is inserted as a JSON string, then each of
/// `records` as a JSON object of strings. Writing such a value to a string
/// cannot fail: its keys are strings and it holds no number.
#[verifier::external_body]
pub(crate) fn write_object(
    texts: &Vec<(String, String)>,
    records: &Vec<(String, Vec<(String, String)>)>,
) -> (text: String)
    ensures
        text@ == pretty_object(pairs_view(texts@), records_view(records@)),
{
    let mut object = serde_json::Map::new();
    for (name, text) in texts {
        object.insert(name.clone(), Value::String(text.clone()));
    }
    for (name, pairs) in records {
        let strings = pairs.iter().map(|(key, text)| (key.clone(), Value::String(text.clone())));
        object.insert(name.clone(), Value::Object(strings.collect()));
    }
    serde_json::to_string_pretty(&Value::Object(object)).unwrap_or_default()
}

} // verus!
