//! BSON documents as the repository reads and writes them: an ordered list
//! of fields whose values are either one of the kinds the repository looks
//! at (date-times, strings, 32-bit integers) or an opaque BSON value carried
//! through unchanged.

use vstd::prelude::*;

use crate::entries::{
    find_key, has_key, insert_entry, is_first, key_view, keys_distinct, lemma_first_unique,
    lemma_insert_keeps_keys_distinct, lemma_position, lookup, position,
};

verus! {

#[verifier::external_type_specification]
#[verifier::external_body]
pub struct ExBson(mongodb::bson::Bson);

/// `Bson::clone` (a derived `Clone`): the copy is the same value.
pub assume_specification[ <mongodb::bson::Bson as Clone>::clone ](b: &mongodb::bson::Bson) -> (r:
    mongodb::bson::Bson)
    ensures
        r == *b,
;

/// The value of a document field.
pub enum BsonValue {
    /// A UTC date-time, in milliseconds since the Unix epoch.
    DateTime(i64),
    String(String),
    Int32(i32),
    /// Any other BSON value, carried through untouched.
    Other(mongodb::bson::Bson),
}

/// A field value as a mathematical value.
pub enum BsonView {
    DateTime(i64),
    String(Seq<char>),
    Int32(i32),
    Other(mongodb::bson::Bson),
}

impl View for BsonValue {
    type V = BsonView;

    open spec fn view(&self) -> BsonView {
        match self {
            BsonValue::DateTime(ms) => BsonView::DateTime(*ms),
            BsonValue::String(s) => BsonView::String(s@),
            BsonValue::Int32(i) => BsonView::Int32(*i),
            BsonValue::Other(b) => BsonView::Other(*b),
        }
    }
}

impl Clone for BsonValue {
    fn clone(&self) -> (r: BsonValue)
        ensures
            r == *self,
    {
        match self {
            BsonValue::DateTime(ms) => BsonValue::DateTime(*ms),
            BsonValue::String(s) => BsonValue::String(s.clone()),
            BsonValue::Int32(i) => BsonValue::Int32(*i),
            BsonValue::Other(b) => BsonValue::Other(b.clone()),
        }
    }
}

/// An ordered list of named fields.
pub struct BsonDocument {
    pub entries: Vec<(String, BsonValue)>,
}

/// The fields of a document as mathematical values.
pub open spec fn fields_view(e: Seq<(String, BsonValue)>) -> Seq<(Seq<char>, BsonView)> {
    e.map_values(|p: (String, BsonValue)| (p.0@, p.1@))
}

impl View for BsonDocument {
    type V = Seq<(Seq<char>, BsonView)>;

    open spec fn view(&self) -> Seq<(Seq<char>, BsonView)> {
        fields_view(self.entries@)
    }
}

/// Position lookups agree between the key-only view and the full view.
proof fn lemma_views_agree(e: Seq<(String, BsonValue)>, key: Seq<char>)
    ensures
        forall|i: int| is_first(key_view(e), key, i) <==> is_first(fields_view(e), key, i),
        has_key(key_view(e), key) <==> has_key(fields_view(e), key),
{
    assert forall|i: int| is_first(key_view(e), key, i) <==> is_first(fields_view(e), key, i) by {
        if 0 <= i < e.len() {
            assert forall|j: int| 0 <= j < i implies (key_view(e)[j].0 == fields_view(e)[j].0) by {}
        }
    }
    if has_key(key_view(e), key) {
        let i = choose|i: int| 0 <= i < key_view(e).len() && key_view(e)[i].0 == key;
        assert(fields_view(e)[i].0 == key);
    }
    if has_key(fields_view(e), key) {
        let i = choose|i: int| 0 <= i < fields_view(e).len() && fields_view(e)[i].0 == key;
        assert(key_view(e)[i].0 == key);
    }
}

impl BsonDocument {
    /// A document without fields.
    pub fn new() -> (d: BsonDocument)
        ensures
            d@ == Seq::<(Seq<char>, BsonView)>::empty(),
    {
        let d = BsonDocument { entries: Vec::new() };
        assert(d@ =~= Seq::<(Seq<char>, BsonView)>::empty());
        d
    }

    /// The value of the field named `key`.
    pub fn get(&self, key: &str) -> (r: Option<&BsonValue>)
        ensures
            match r {
                Some(v) => lookup(self@, key@) == Some(v@),
                None => lookup(self@, key@) is None,
            },
    {
        proof {
            lemma_views_agree(self.entries@, key@);
        }
        match find_key(&self.entries, key) {
            Some(i) => {
                proof {
                    lemma_position(self@, key@);
                    lemma_first_unique(self@, key@, i as int, position(self@, key@));
                }
                Some(&self.entries[i].1)
            },
            None => None,
        }
    }

    /// Sets the field `key` to `value`: an existing field keeps its place,
    /// a new one goes at the end.
    pub fn insert(&mut self, key: &str, value: BsonValue)
        ensures
            final(self)@ == insert_entry(old(self)@, key@, value@),
            keys_distinct(old(self)@) ==> keys_distinct(final(self)@),
    {
        proof {
            lemma_views_agree(self.entries@, key@);
            if keys_distinct(old(self)@) {
                lemma_insert_keeps_keys_distinct(old(self)@, key@, value@);
            }
        }
        let k = String::from_str(key);
        match find_key(&self.entries, key) {
            Some(i) => {
                proof {
                    lemma_position(old(self)@, key@);
                    lemma_first_unique(old(self)@, key@, i as int, position(old(self)@, key@));
                }
                self.entries.set(i, (k, value));
                assert(self@ =~= insert_entry(old(self)@, key@, value@));
            },
            None => {
                self.entries.push((k, value));
                assert(self@ =~= insert_entry(old(self)@, key@, value@));
            },
        }
    }
}

impl Clone for BsonDocument {
    fn clone(&self) -> (r: BsonDocument)
        ensures
            r.entries@ == self.entries@,
    {
        let mut entries: Vec<(String, BsonValue)> = Vec::new();
        let mut i: usize = 0;
        while i < self.entries.len()
            invariant
                i <= self.entries.len(),
                entries@ == self.entries@.subrange(0, i as int),
            decreases self.entries.len() - i,
        {
            let k = self.entries[i].0.clone();
            let v = self.entries[i].1.clone();
            entries.push((k, v));
            assert(entries@ =~= self.entries@.subrange(0, i + 1));
            i = i + 1;
        }
        assert(entries@ =~= self.entries@);
        BsonDocument { entries }
    }
}

} // verus!
