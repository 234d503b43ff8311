//! JSON values as the repository hands them out, and the flattening of
//! extended-JSON date-times (`{"$date": "<text>"}`) into plain strings.

use vstd::prelude::*;

use crate::entries::{
    find_key, has_key, insert_entry, key_view, lemma_first_unique, lemma_lookup_insert_other,
    lemma_lookup_insert_same, lemma_position, lookup, position,
};

verus! {

#[verifier::external_type_specification]
#[verifier::external_body]
pub struct ExNumber(serde_json::Number);

/// A JSON value. Object members keep their order; numbers are carried
/// through untouched.
pub enum JsonValue {
    Null,
    Bool(bool),
    Number(serde_json::Number),
    String(String),
    Array(Vec<JsonValue>),
    Object(Vec<(String, JsonValue)>),
}

/// The member `key` of an object value, if the value is an object and has it.
pub open spec fn member(v: JsonValue, key: Seq<char>) -> Option<JsonValue> {
    match v {
        JsonValue::Object(e) => lookup(key_view(e@), key),
        _ => None,
    }
}

/// The text of the extended-JSON date-time held in member `key`: `v[key]`
/// is an object whose `$date` member is a string.
pub open spec fn date_text(v: JsonValue, key: Seq<char>) -> Option<String> {
    match member(v, key) {
        Some(inner) => match member(inner, "$date"@) {
            Some(JsonValue::String(s)) => Some(s),
            _ => None,
        },
        None => None,
    }
}

/// `new` is `old` with member `key` replaced, in place, by the text of its
/// `$date` member when there is one, and `old` itself otherwise.
pub open spec fn date_flattened(old: JsonValue, new: JsonValue, key: Seq<char>) -> bool {
    match date_text(old, key) {
        Some(s) => match (old, new) {
            (JsonValue::Object(e1), JsonValue::Object(e2)) => {
                let i = position(key_view(e1@), key);
                e2@ == e1@.update(i, (e1@[i].0, JsonValue::String(s)))
            },
            _ => false,
        },
        None => new == old,
    }
}

/// Where `value[key]` is an object whose `$date` member is a string,
/// replaces `value[key]` by that string; otherwise leaves `value` as it is.
pub fn convert_datetime(value: &mut JsonValue, key: &str)
    ensures
        date_flattened(*old(value), *final(value), key@),
{
    let found: Option<(usize, String)> = match &*value {
        JsonValue::Object(entries) => match find_key(entries, key) {
            Some(i) => {
                proof {
                    lemma_position(key_view(entries@), key@);
                    lemma_first_unique(key_view(entries@), key@, i as int, position(key_view(entries@), key@));
                }
                match &entries[i].1 {
                    JsonValue::Object(inner) => match find_key(inner, "$date") {
                        Some(j) => {
                            proof {
                                lemma_position(key_view(inner@), "$date"@);
                                lemma_first_unique(key_view(inner@), "$date"@, j as int, position(key_view(inner@), "$date"@));
                            }
                            match &inner[j].1 {
                                JsonValue::String(s) => Some((i, s.clone())),
                                _ => None,
                            }
                        },
                        None => None,
                    },
                    _ => None,
                }
            },
            None => None,
        },
        _ => None,
    };
    match found {
        Some((i, s)) => {
            let mut taken = JsonValue::Null;
            std::mem::swap(&mut taken, value);
            match taken {
                JsonValue::Object(mut entries) => {
                    let k = entries[i].0.clone();
                    entries.set(i, (k, JsonValue::String(s)));
                    *value = JsonValue::Object(entries);
                },
                other => {
                    *value = other;
                },
            }
        },
        None => {},
    }
}

/// Where a date-time was flattened, the object's members as read by key are
/// those of `old` with `key` now holding the text.
proof fn lemma_flattened_members(old: JsonValue, new: JsonValue, key: Seq<char>)
    requires
        date_flattened(old, new, key),
        date_text(old, key) is Some,
    ensures
        member(new, key) == Some(JsonValue::String(date_text(old, key)->0)),
        forall|other: Seq<char>| other != key ==> #[trigger] member(new, other) == member(old, other),
{
    let s = date_text(old, key)->0;
    match (old, new) {
        (JsonValue::Object(e1), JsonValue::Object(e2)) => {
            let kv = key_view(e1@);
            lemma_position(kv, key);
            let i = position(kv, key);
            let v = JsonValue::String(s);
            assert(key_view(e2@) =~= insert_entry(kv, key, v));
            lemma_lookup_insert_same(kv, key, v);
            assert forall|other: Seq<char>| other != key implies #[trigger] member(new, other) == member(old, other) by {
                lemma_lookup_insert_other(kv, key, other, v);
            }
        },
        _ => {},
    }
}

/// Flattening a date-time changes no other member, and flattening again
/// changes nothing: the member now holds a string, not an object.
pub proof fn lemma_convert_datetime_stable(old: JsonValue, new: JsonValue, newer: JsonValue, key: Seq<char>)
    requires
        date_flattened(old, new, key),
        date_flattened(new, newer, key),
    ensures
        newer == new,
        forall|other: Seq<char>| other != key ==> #[trigger] member(new, other) == member(old, other),
{
    if date_text(old, key) is Some {
        lemma_flattened_members(old, new, key);
    }
}

/// `new` is `old` with both time stamps (`created_at`, then `updated_at`)
/// flattened as `convert_datetime` does.
pub open spec fn timestamps_flattened(old: JsonValue, new: JsonValue) -> bool {
    exists|mid: JsonValue| date_flattened(old, mid, "created_at"@) && date_flattened(mid, new, "updated_at"@)
}

/// Flattens the `created_at` and then the `updated_at` date-time of `value`.
pub fn convert_timestamps(value: &mut JsonValue)
    ensures
        timestamps_flattened(*old(value), *final(value)),
{
    convert_datetime(value, "created_at");
    let ghost mid = *value;
    convert_datetime(value, "updated_at");
    assert(date_flattened(*old(value), mid, "created_at"@));
}

} // verus!
