//! The `created_at` / `updated_at` time stamps of stored documents: setting
//! them on insert and turning them into text on the way out.

use vstd::prelude::*;

use crate::document::{BsonDocument, BsonValue, BsonView};
use crate::entries::{
    insert_entry, keys_distinct, lemma_insert_keeps_keys_distinct, lemma_lookup_insert_other,
    lemma_lookup_insert_same, lookup,
};

verus! {

/// What `bson::DateTime`'s `Display` renders for the date-time `millis`
/// milliseconds after the Unix epoch.
pub uninterp spec fn datetime_text(millis: i64) -> Seq<char>;

/// Renders a date-time with `bson::DateTime`'s `Display` implementation
/// (an RFC 3339-like text, or the raw number where the date is out of the
/// calendar's range). Only the name of the result is claimed.
#[verifier::external_body]
fn datetime_to_string(millis: i64) -> (r: String)
    ensures
        r@ == datetime_text(millis),
{
    mongodb::bson::DateTime::from_millis(millis).to_string()
}

/// Reads the clock with `bson::DateTime::now`, in milliseconds since the
/// Unix epoch. Nothing is claimed of the reading.
#[verifier::external_body]
pub(crate) fn now_millis() -> i64 {
    mongodb::bson::DateTime::now().timestamp_millis()
}

/// The field that records when a document was created.
pub open spec fn created_key() -> Seq<char> {
    "created_at"@
}

/// The field that records when a document was last updated.
pub open spec fn updated_key() -> Seq<char> {
    "updated_at"@
}

/// The document with the date-time in field `key`, if that field holds one,
/// replaced by its text; otherwise the document unchanged.
pub open spec fn stringify_field(d: Seq<(Seq<char>, BsonView)>, key: Seq<char>) -> Seq<(Seq<char>, BsonView)> {
    match lookup(d, key) {
        Some(BsonView::DateTime(ms)) => insert_entry(d, key, BsonView::String(datetime_text(ms))),
        _ => d,
    }
}

/// Both time stamps of a document turned into text.
pub open spec fn stringify_timestamps(d: Seq<(Seq<char>, BsonView)>) -> Seq<(Seq<char>, BsonView)> {
    stringify_field(stringify_field(d, created_key()), updated_key())
}

/// The document with both time stamps set to the date-time `now`.
pub open spec fn stamped(d: Seq<(Seq<char>, BsonView)>, now: i64) -> Seq<(Seq<char>, BsonView)> {
    insert_entry(insert_entry(d, created_key(), BsonView::DateTime(now)), updated_key(), BsonView::DateTime(now))
}

fn update_doc(key: &str, doc: &BsonDocument) -> (r: BsonDocument)
    ensures
        r@ == stringify_field(doc@, key@),
{
    let mut updated = doc.clone();
    assert(updated@ == doc@);
    let millis: Option<i64> = match doc.get(key) {
        Some(BsonValue::DateTime(ms)) => Some(*ms),
        _ => None,
    };
    match millis {
        Some(ms) => {
            let text = datetime_to_string(ms);
            updated.insert(key, BsonValue::String(text));
        },
        None => {},
    }
    updated
}

/// A copy of `doc` in which the `created_at` and `updated_at` fields, where
/// they hold date-times, hold their text instead.
pub fn update_one_ts(doc: &BsonDocument) -> (r: BsonDocument)
    ensures
        r@ == stringify_timestamps(doc@),
{
    let updated = update_doc("created_at", doc);
    update_doc("updated_at", &updated)
}

/// `update_one_ts` applied to each document, in order.
pub fn update_many_ts(docs: Vec<BsonDocument>) -> (r: Vec<BsonDocument>)
    ensures
        r.len() == docs.len(),
        forall|i: int| 0 <= i < docs.len() ==> #[trigger] r[i]@ == stringify_timestamps(docs[i]@),
{
    let mut out: Vec<BsonDocument> = Vec::new();
    let mut i: usize = 0;
    while i < docs.len()
        invariant
            i <= docs.len(),
            out.len() == i,
            forall|j: int| 0 <= j < i ==> #[trigger] out[j]@ == stringify_timestamps(docs[j]@),
        decreases docs.len() - i,
    {
        out.push(update_one_ts(&docs[i]));
        i = i + 1;
    }
    out
}

/// Sets both time stamps of `doc` to the date-time `now`.
pub fn stamp(doc: &mut BsonDocument, now: i64)
    ensures
        final(doc)@ == stamped(old(doc)@, now),
{
    doc.insert("created_at", BsonValue::DateTime(now));
    doc.insert("updated_at", BsonValue::DateTime(now));
}

/// Reads the clock once and sets both time stamps of `doc` to that reading,
/// which is returned.
pub fn stamp_now(doc: &mut BsonDocument) -> (now: i64)
    ensures
        final(doc)@ == stamped(old(doc)@, now),
{
    let now = now_millis();
    stamp(doc, now);
    now
}

/// The two time-stamp fields are different fields.
pub proof fn lemma_timestamp_keys_differ()
    ensures
        created_key() != updated_key(),
{
    reveal_strlit("created_at");
    reveal_strlit("updated_at");
    assert(created_key()[0] != updated_key()[0]);
}

proof fn lemma_stringify_field(d: Seq<(Seq<char>, BsonView)>, key: Seq<char>)
    ensures
        !(lookup(stringify_field(d, key), key) matches Some(BsonView::DateTime(_))),
        forall|other: Seq<char>| other != key ==> #[trigger] lookup(stringify_field(d, key), other) == lookup(d, other),
        keys_distinct(d) ==> keys_distinct(stringify_field(d, key)),
        !(lookup(d, key) matches Some(BsonView::DateTime(_))) ==> stringify_field(d, key) == d,
{
    match lookup(d, key) {
        Some(BsonView::DateTime(ms)) => {
            let v = BsonView::String(datetime_text(ms));
            lemma_lookup_insert_same(d, key, v);
            assert forall|other: Seq<char>| other != key implies #[trigger] lookup(stringify_field(d, key), other) == lookup(d, other) by {
                lemma_lookup_insert_other(d, key, other, v);
            }
            if keys_distinct(d) {
                lemma_insert_keeps_keys_distinct(d, key, v);
            }
        },
        _ => {},
    }
}

/// Turning the time stamps into text leaves neither `created_at` nor
/// `updated_at` holding a date-time, changes no other field, keeps the
/// fields' keys distinct, and changes nothing more when done again.
pub proof fn lemma_stringify_timestamps(d: Seq<(Seq<char>, BsonView)>)
    ensures
        !(lookup(stringify_timestamps(d), created_key()) matches Some(BsonView::DateTime(_))),
        !(lookup(stringify_timestamps(d), updated_key()) matches Some(BsonView::DateTime(_))),
        forall|other: Seq<char>|
            other != created_key() && other != updated_key() ==> #[trigger] lookup(stringify_timestamps(d), other)
                == lookup(d, other),
        keys_distinct(d) ==> keys_distinct(stringify_timestamps(d)),
        stringify_timestamps(stringify_timestamps(d)) == stringify_timestamps(d),
{
    lemma_timestamp_keys_differ();
    let d1 = stringify_field(d, created_key());
    let d2 = stringify_field(d1, updated_key());
    lemma_stringify_field(d, created_key());
    lemma_stringify_field(d1, updated_key());
    assert(lookup(d2, created_key()) == lookup(d1, created_key()));
    lemma_stringify_field(d2, created_key());
    lemma_stringify_field(d2, updated_key());
    assert(stringify_field(d2, created_key()) == d2);
}

/// Stamping sets both time stamps to the same date-time and changes no other
/// field; it keeps the fields' keys distinct.
pub proof fn lemma_stamped(d: Seq<(Seq<char>, BsonView)>, now: i64)
    ensures
        lookup(stamped(d, now), created_key()) == Some(BsonView::DateTime(now)),
        lookup(stamped(d, now), updated_key()) == Some(BsonView::DateTime(now)),
        forall|other: Seq<char>|
            other != created_key() && other != updated_key() ==> #[trigger] lookup(stamped(d, now), other) == lookup(d, other),
        keys_distinct(d) ==> keys_distinct(stamped(d, now)),
{
    lemma_timestamp_keys_differ();
    let v = BsonView::DateTime(now);
    let d1 = insert_entry(d, created_key(), v);
    lemma_lookup_insert_same(d, created_key(), v);
    lemma_lookup_insert_same(d1, updated_key(), v);
    lemma_lookup_insert_other(d1, updated_key(), created_key(), v);
    assert forall|other: Seq<char>|
        other != created_key() && other != updated_key() implies #[trigger] lookup(stamped(d, now), other) == lookup(d, other) by {
        lemma_lookup_insert_other(d, created_key(), other, v);
        lemma_lookup_insert_other(d1, updated_key(), other, v);
    }
    if keys_distinct(d) {
        lemma_insert_keeps_keys_distinct(d, created_key(), v);
        lemma_insert_keeps_keys_distinct(d1, updated_key(), v);
    }
}

/// A document stamped at `now` and then read out carries the text of `now`
/// in both time stamps.
pub proof fn lemma_stamp_then_stringify(d: Seq<(Seq<char>, BsonView)>, now: i64)
    ensures
        lookup(stringify_timestamps(stamped(d, now)), created_key()) == Some(BsonView::String(datetime_text(now))),
        lookup(stringify_timestamps(stamped(d, now)), updated_key()) == Some(BsonView::String(datetime_text(now))),
{
    lemma_timestamp_keys_differ();
    lemma_stamped(d, now);
    let s = stamped(d, now);
    let s1 = stringify_field(s, created_key());
    let text = BsonView::String(datetime_text(now));
    lemma_lookup_insert_same(s, created_key(), text);
    lemma_lookup_insert_other(s, created_key(), updated_key(), text);
    lemma_lookup_insert_same(s1, updated_key(), text);
    lemma_lookup_insert_other(s1, updated_key(), created_key(), text);
}

} // verus!
