//! Turning JSON values into BSON documents and back, with the bson crate's
//! serde support (`bson::to_document`, `bson::from_document`).

use vstd::prelude::*;

use crate::document::{BsonDocument, BsonValue, BsonView};
use crate::entries::keys_distinct;
use crate::error::RepositoryError;
use crate::json::JsonValue;

verus! {

#[verifier::external_type_specification]
#[verifier::external_body]
pub struct ExJson(serde_json::Value);

#[verifier::external_type_specification]
#[verifier::external_body]
pub struct ExDocument(mongodb::bson::Document);

/// What `bson::to_document` makes of a JSON value: the fields of the BSON
/// document, or the text of the serializer's error (for instance when the
/// value is not an object, or holds an integer beyond the signed 64-bit
/// range).
pub uninterp spec fn json_document(v: JsonValue) -> Result<Seq<(Seq<char>, BsonView)>, Seq<char>>;

/// What `bson::from_document` makes of a BSON document when it reads a JSON
/// value out of it: the value, or the text of the deserializer's error.
pub uninterp spec fn document_json(d: Seq<(Seq<char>, BsonView)>) -> Result<JsonValue, Seq<char>>;

/// The JSON value as a `serde_json::Value`, member for member.
#[verifier::external_body]
fn json_to_serde(v: &JsonValue) -> serde_json::Value {
    match v {
        JsonValue::Null => serde_json::Value::Null,
        JsonValue::Bool(b) => serde_json::Value::Bool(*b),
        JsonValue::Number(n) => serde_json::Value::Number(n.clone()),
        JsonValue::String(s) => serde_json::Value::String(s.clone()),
        JsonValue::Array(a) => serde_json::Value::Array(a.iter().map(json_to_serde).collect()),
        JsonValue::Object(m) => serde_json::Value::Object(m.iter().map(|(k, x)| (k.clone(), json_to_serde(x))).collect()),
    }
}

/// A `serde_json::Value` as the library's JSON value, member for member.
#[verifier::external_body]
fn json_from_serde(v: serde_json::Value) -> JsonValue {
    match v {
        serde_json::Value::Null => JsonValue::Null,
        serde_json::Value::Bool(b) => JsonValue::Bool(b),
        serde_json::Value::Number(n) => JsonValue::Number(n),
        serde_json::Value::String(s) => JsonValue::String(s),
        serde_json::Value::Array(a) => JsonValue::Array(a.into_iter().map(json_from_serde).collect()),
        serde_json::Value::Object(m) => JsonValue::Object(m.into_iter().map(|(k, x)| (k, json_from_serde(x))).collect()),
    }
}

/// A `bson::Document` as the library's document, field for field.
#[verifier::external_body]
fn document_from_bson(d: mongodb::bson::Document) -> BsonDocument {
    BsonDocument {
        entries: d.into_iter().map(|(k, b)| (k, match b {
            mongodb::bson::Bson::DateTime(dt) => BsonValue::DateTime(dt.timestamp_millis()),
            mongodb::bson::Bson::String(s) => BsonValue::String(s),
            mongodb::bson::Bson::Int32(i) => BsonValue::Int32(i),
            other => BsonValue::Other(other),
        })).collect(),
    }
}

/// The library's document as a `bson::Document`, field for field.
#[verifier::external_body]
fn document_to_bson(d: BsonDocument) -> mongodb::bson::Document {
    d.entries.into_iter().map(|(k, v)| (k, match v {
        BsonValue::DateTime(ms) => mongodb::bson::Bson::DateTime(mongodb::bson::DateTime::from_millis(ms)),
        BsonValue::String(s) => mongodb::bson::Bson::String(s),
        BsonValue::Int32(i) => mongodb::bson::Bson::Int32(i),
        BsonValue::Other(b) => b,
    })).collect()
}

/// Serializes a JSON value into a BSON document with `bson::to_document`.
/// The result is named by `json_document`; a `bson::Document` is an
/// index map, so its keys are distinct.
#[verifier::external_body]
fn to_document(v: &JsonValue) -> (r: Result<BsonDocument, String>)
    ensures
        match r {
            Ok(d) => json_document(*v) == Ok::<Seq<(Seq<char>, BsonView)>, Seq<char>>(d@) && keys_distinct(d@),
            Err(m) => json_document(*v) == Err::<Seq<(Seq<char>, BsonView)>, Seq<char>>(m@),
        },
{
    mongodb::bson::to_document(&json_to_serde(v)).map(document_from_bson).map_err(|e| e.to_string())
}

/// Deserializes a JSON value out of a BSON document with
/// `bson::from_document`. The result is named by `document_json`.
#[verifier::external_body]
pub(crate) fn from_document(d: BsonDocument) -> (r: Result<JsonValue, String>)
    ensures
        match r {
            Ok(v) => document_json(d@) == Ok::<JsonValue, Seq<char>>(v),
            Err(m) => document_json(d@) == Err::<JsonValue, Seq<char>>(m@),
        },
{
    mongodb::bson::from_document::<serde_json::Value>(document_to_bson(d)).map(json_from_serde).map_err(|e| e.to_string())
}

/// The BSON document a request sends for a JSON filter or update: the
/// serialized document, or `BsonSerializationFailed` with the serializer's
/// message.
pub fn request_document(v: &JsonValue) -> (r: Result<BsonDocument, RepositoryError>)
    ensures
        match json_document(*v) {
            Ok(d) => r matches Ok(doc) && doc@ == d && keys_distinct(doc@),
            Err(m) => r matches Err(RepositoryError::BsonSerializationFailed(s)) && s@ == m,
        },
{
    match to_document(v) {
        Ok(d) => Ok(d),
        Err(m) => Err(RepositoryError::BsonSerializationFailed(m)),
    }
}

/// The filter and projection documents of a single-document find: a filter
/// that cannot be serialized is reported first, then a projection.
pub fn find_one_request(filter: &JsonValue, projection: Option<&JsonValue>) -> (r: Result<(BsonDocument, Option<BsonDocument>), RepositoryError>)
    ensures
        match json_document(*filter) {
            Err(m) => r matches Err(RepositoryError::BsonSerializationFailed(s)) && s@ == m,
            Ok(f) => match projection {
                None => r matches Ok((fd, None)) && fd@ == f,
                Some(p) => match json_document(*p) {
                    Ok(pd) => r matches Ok((fd, Some(pdoc))) && fd@ == f && pdoc@ == pd,
                    Err(m) => r matches Err(RepositoryError::BsonSerializationFailed(s)) && s@ == m,
                },
            },
        },
{
    let filter_doc = match request_document(filter) {
        Ok(d) => d,
        Err(e) => return Err(e),
    };
    match projection {
        None => Ok((filter_doc, None)),
        Some(p) => match request_document(p) {
            Ok(pd) => Ok((filter_doc, Some(pd))),
            Err(e) => Err(e),
        },
    }
}

/// The JSON value read out of a changed document, where it can be read.
pub fn change_value(d: BsonDocument) -> (r: Option<JsonValue>)
    ensures
        r == match document_json(d@) {
            Ok(v) => Some(v),
            Err(_) => None::<JsonValue>,
        },
{
    match from_document(d) {
        Ok(v) => Some(v),
        Err(_) => None,
    }
}

/// The JSON values read out of found documents, in order; `None` when some
/// document cannot be read.
pub fn documents_to_json(docs: Vec<BsonDocument>) -> (r: Option<Vec<JsonValue>>)
    ensures
        match r {
            Some(vs) => vs.len() == docs.len() && forall|i: int|
                0 <= i < docs.len() ==> document_json(#[trigger] docs[i]@) == Ok::<JsonValue, Seq<char>>(vs[i]),
            None => exists|i: int| 0 <= i < docs.len() && document_json(#[trigger] docs[i]@) is Err,
        },
{
    let ghost original = docs@;
    let mut pending = docs;
    let mut out: Vec<JsonValue> = Vec::new();
    let mut i: usize = 0;
    while i < pending.len()
        invariant
            original == docs@,
            pending.len() == original.len(),
            i <= pending.len(),
            out.len() == i,
            forall|j: int| i <= j < original.len() ==> pending@[j] == original[j],
            forall|j: int| 0 <= j < i ==> document_json(#[trigger] original[j]@) == Ok::<JsonValue, Seq<char>>(out[j]),
        decreases pending.len() - i,
    {
        let mut d = BsonDocument { entries: Vec::new() };
        pending.set_and_swap(i, &mut d);
        match from_document(d) {
            Ok(v) => out.push(v),
            Err(_) => {
                assert(document_json(original[i as int]@) is Err);
                return None;
            },
        }
        i = i + 1;
    }
    Some(out)
}

} // verus!
