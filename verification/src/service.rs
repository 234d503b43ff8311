//! What the repository's operations decide around their database calls:
//! the documents they send, the values they extract, and how each driver
//! outcome is answered.

use vstd::prelude::*;

use crate::datetime::{now_millis, stamp, stamped};
use crate::document::{BsonDocument, BsonValue, BsonView};
use crate::entries::lookup;
use crate::error::{MongoError, RepositoryError};
use crate::bson_json::{change_value, document_json, from_document, json_document, request_document};
use crate::json::JsonValue;
use crate::pagination::PageInfo;

verus! {

/// The `<database>:<collection>` summary of a collection's namespace.
pub fn namespace_summary(db: &str, coll: &str) -> (r: String)
    ensures
        r@ == db@ + ":"@ + coll@,
{
    let mut s = String::from_str(db);
    s.append(":");
    s.append(coll);
    s
}

/// The projection that keeps only the `_record_id` field.
pub fn record_id_projection() -> (r: BsonDocument)
    ensures
        r@ == seq![("_id"@, BsonView::Int32(0)), ("_record_id"@, BsonView::Int32(1))],
{
    let mut p = BsonDocument::new();
    p.insert("_id", BsonValue::Int32(0));
    proof {
        reveal_strlit("_id");
        reveal_strlit("_record_id");
        assert("_id"@.len() != "_record_id"@.len());
    }
    p.insert("_record_id", BsonValue::Int32(1));
    assert(p@ =~= seq![("_id"@, BsonView::Int32(0)), ("_record_id"@, BsonView::Int32(1))]);
    p
}

/// The record id of a document: its `_record_id` field, where that is a
/// string.
pub fn record_id(doc: &BsonDocument) -> (r: Option<String>)
    ensures
        match r {
            Some(s) => lookup(doc@, "_record_id"@) == Some(BsonView::String(s@)),
            None => !(lookup(doc@, "_record_id"@) matches Some(BsonView::String(_))),
        },
{
    match doc.get("_record_id") {
        Some(BsonValue::String(s)) => Some(s.clone()),
        _ => None,
    }
}

/// The page size a repository is opened with.
pub const DEFAULT_PAGE_SIZE: i32 = 30;

/// Seconds the connectivity check waits before its first ping.
pub const PING_START_DELAY_SECS: u64 = 30;

/// Seconds between two pings of the connectivity check.
pub const PING_INTERVAL_SECS: u64 = 60;

/// How counts and single-document finds read.
pub struct ReadSettings {
    /// Reads are made at the majority read concern.
    pub read_concern_majority: bool,
}

/// Counts and single-document finds read at the majority read concern.
pub fn query_read_settings() -> (s: ReadSettings)
    ensures
        s.read_concern_majority,
{
    ReadSettings { read_concern_majority: true }
}

/// How a bulk insert is sent.
pub struct InsertManySettings {
    /// The documents are inserted in order, stopping at the first failure.
    pub ordered: bool,
    /// The insert is acknowledged by a majority of the replica set.
    pub write_concern_majority: bool,
}

/// Bulk inserts are ordered and acknowledged by a majority.
pub fn insert_many_settings() -> (s: InsertManySettings)
    ensures
        s.ordered,
        s.write_concern_majority,
{
    InsertManySettings { ordered: true, write_concern_majority: true }
}

/// How a find-and-update is sent when the caller gives no options.
pub struct UpdateSettings {
    /// A missing document is created.
    pub upsert: bool,
    /// The update is acknowledged by a majority of the replica set.
    pub write_concern_majority: bool,
    /// The document is returned as it is after the update.
    pub return_updated: bool,
}

/// By default a find-and-update creates no document, is acknowledged by a
/// majority, and returns the document as updated.
pub fn default_update_settings() -> (s: UpdateSettings)
    ensures
        !s.upsert,
        s.write_concern_majority,
        s.return_updated,
{
    UpdateSettings { upsert: false, write_concern_majority: true, return_updated: true }
}

/// The answer to a step of setting up the connection: its value, or
/// `InitializationFailed` whatever went wrong.
pub fn initialization_outcome<T, E>(r: Result<T, E>) -> (o: Result<T, RepositoryError>)
    ensures
        match r {
            Ok(v) => o == Ok::<T, RepositoryError>(v),
            Err(_) => o matches Err(RepositoryError::InitializationFailed),
        },
{
    match r {
        Ok(v) => Ok(v),
        Err(_) => Err(RepositoryError::InitializationFailed),
    }
}

/// The shared client or provider, or `UnIntialized` while there is none.
pub fn initialized<T>(c: Option<T>) -> (o: Result<T, RepositoryError>)
    ensures
        match c {
            Some(v) => o == Ok::<T, RepositoryError>(v),
            None => o matches Err(RepositoryError::UnIntialized),
        },
{
    match c {
        Some(v) => Ok(v),
        None => Err(RepositoryError::UnIntialized),
    }
}

/// The answer to the connection check made when a repository is opened on
/// an existing client: `ClientError` when the server refused it.
pub fn connection_outcome<T>(r: Result<T, MongoError>) -> (o: Result<T, RepositoryError>)
    ensures
        match r {
            Ok(v) => o == Ok::<T, RepositoryError>(v),
            Err(e) => o matches Err(RepositoryError::ClientError(e2)) && e2 == e,
        },
{
    match r {
        Ok(v) => Ok(v),
        Err(e) => Err(RepositoryError::ClientError(e)),
    }
}

/// The answer to starting a session: the session, or
/// `SessionCreationError`.
pub fn session_outcome<T>(r: Result<T, MongoError>) -> (o: Result<T, RepositoryError>)
    ensures
        match r {
            Ok(v) => o == Ok::<T, RepositoryError>(v),
            Err(e) => o matches Err(RepositoryError::SessionCreationError(e2)) && e2 == e,
        },
{
    match r {
        Ok(v) => Ok(v),
        Err(e) => Err(RepositoryError::SessionCreationError(e)),
    }
}

/// The answer to a count: the number, or `CountFailed` with the driver's
/// message.
pub fn count_outcome(r: Result<u64, String>) -> (o: Result<u64, RepositoryError>)
    ensures
        match r {
            Ok(n) => o == Ok::<u64, RepositoryError>(n),
            Err(m) => o matches Err(RepositoryError::CountFailed(m2)) && m2 == m,
        },
{
    match r {
        Ok(n) => Ok(n),
        Err(m) => Err(RepositoryError::CountFailed(m)),
    }
}

/// The answer to a single-document find: the document found, read out as
/// JSON; `NoDocument` when none matched; `FindFailed` when the driver
/// failed. `None` when the found document cannot be read out, where the
/// operation has no answer to give.
pub fn find_one_result(r: Result<Option<BsonDocument>, MongoError>) -> (o: Option<Result<JsonValue, RepositoryError>>)
    ensures
        match r {
            Ok(Some(d)) => match document_json(d@) {
                Ok(v) => o == Some(Ok::<JsonValue, RepositoryError>(v)),
                Err(_) => o is None,
            },
            Ok(None) => o matches Some(Err(RepositoryError::NoDocument)),
            Err(e) => o matches Some(Err(RepositoryError::FindFailed(e2))) && e2 == e,
        },
{
    match r {
        Ok(Some(d)) => match change_value(d) {
            Some(v) => Some(Ok(v)),
            None => None,
        },
        Ok(None) => Some(Err(RepositoryError::NoDocument)),
        Err(e) => Some(Err(RepositoryError::FindFailed(e))),
    }
}

/// The answer to a paginated find whose driver call failed, or its page.
pub fn find_outcome<T>(r: Result<T, MongoError>) -> (o: Result<T, RepositoryError>)
    ensures
        match r {
            Ok(v) => o == Ok::<T, RepositoryError>(v),
            Err(e) => o matches Err(RepositoryError::FindFailed(e2)) && e2 == e,
        },
{
    match r {
        Ok(v) => Ok(v),
        Err(e) => Err(RepositoryError::FindFailed(e)),
    }
}

/// The answer to a find-and-update: the updated document read out as JSON,
/// `None` when no document matched, `BsonDeSerializationFailed` when the
/// updated document could not be read out, `UpdateOneFailed` when the
/// driver failed.
pub fn update_one_outcome(r: Result<Option<BsonDocument>, MongoError>) -> (o: Result<Option<JsonValue>, RepositoryError>)
    ensures
        match r {
            Ok(Some(d)) => match document_json(d@) {
                Ok(v) => o == Ok::<Option<JsonValue>, RepositoryError>(Some(v)),
                Err(m) => o matches Err(RepositoryError::BsonDeSerializationFailed(m2)) && m2@ == m,
            },
            Ok(None) => o == Ok::<Option<JsonValue>, RepositoryError>(None),
            Err(e) => o matches Err(RepositoryError::UpdateOneFailed(e2)) && e2 == e,
        },
{
    match r {
        Ok(Some(d)) => match from_document(d) {
            Ok(v) => Ok(Some(v)),
            Err(m) => Err(RepositoryError::BsonDeSerializationFailed(m)),
        },
        Ok(None) => Ok(None),
        Err(e) => Err(RepositoryError::UpdateOneFailed(e)),
    }
}

/// The answer to a single insert: the new document's id, or
/// `InsertOneFailed`.
pub fn insert_one_outcome<T>(r: Result<T, MongoError>) -> (o: Result<T, RepositoryError>)
    ensures
        match r {
            Ok(v) => o == Ok::<T, RepositoryError>(v),
            Err(e) => o matches Err(RepositoryError::InsertOneFailed(e2)) && e2 == e,
        },
{
    match r {
        Ok(v) => Ok(v),
        Err(e) => Err(RepositoryError::InsertOneFailed(e)),
    }
}

/// The answer to a bulk insert: the new documents' ids, or
/// `InsertManyFailed`.
pub fn insert_many_outcome<T>(r: Result<T, MongoError>) -> (o: Result<T, RepositoryError>)
    ensures
        match r {
            Ok(v) => o == Ok::<T, RepositoryError>(v),
            Err(e) => o matches Err(RepositoryError::InsertManyFailed(e2)) && e2 == e,
        },
{
    match r {
        Ok(v) => Ok(v),
        Err(e) => Err(RepositoryError::InsertManyFailed(e)),
    }
}

/// What each value of a bulk insert serializes to.
pub open spec fn serialized(values: Seq<JsonValue>) -> Seq<Result<Seq<(Seq<char>, BsonView)>, Seq<char>>> {
    values.map_values(|v: JsonValue| json_document(v))
}

/// `i` is the first position of a value that could not be serialized.
pub open spec fn is_first_failure(converted: Seq<Result<Seq<(Seq<char>, BsonView)>, Seq<char>>>, i: int) -> bool {
    &&& 0 <= i < converted.len()
    &&& converted[i] is Err
    &&& forall|j: int| 0 <= j < i ==> converted[j] is Ok
}

/// `e` answers the first value that could not be serialized, with its
/// message.
pub open spec fn answers_first_failure(converted: Seq<Result<Seq<(Seq<char>, BsonView)>, Seq<char>>>, e: RepositoryError) -> bool {
    exists|i: int|
        #[trigger] is_first_failure(converted, i) && (e matches RepositoryError::BsonSerializationFailed(m) && m@
            == converted[i]->Err_0)
}

/// `r` is what the documents of a bulk insert are, given what the values
/// serialize to and the time `now`.
pub open spec fn insert_many_prepared(converted: Seq<Result<Seq<(Seq<char>, BsonView)>, Seq<char>>>, now: i64, r: Result<Vec<BsonDocument>, RepositoryError>) -> bool {
    match r {
        Ok(docs) => {
            &&& forall|j: int| 0 <= j < converted.len() ==> converted[j] is Ok
            &&& docs.len() == converted.len()
            &&& forall|j: int| 0 <= j < converted.len() ==> #[trigger] docs[j]@ == stamped(converted[j]->Ok_0, now)
        },
        Err(e) => answers_first_failure(converted, e),
    }
}

/// The documents of a bulk insert: each value serialized, in order; the
/// first value that cannot be serialized is answered with
/// `BsonSerializationFailed` and the serializer's message; otherwise every
/// document carries both time stamps set to `now`.
pub fn prepare_insert_many(values: Vec<JsonValue>, now: i64) -> (r: Result<Vec<BsonDocument>, RepositoryError>)
    ensures
        insert_many_prepared(serialized(values@), now, r),
{
    let ghost conv = serialized(values@);
    let mut docs: Vec<BsonDocument> = Vec::new();
    let mut i: usize = 0;
    while i < values.len()
        invariant
            conv == serialized(values@),
            i <= values.len(),
            docs.len() == i,
            forall|j: int| 0 <= j < i ==> conv[j] is Ok,
            forall|j: int| 0 <= j < i ==> #[trigger] docs[j]@ == stamped(conv[j]->Ok_0, now),
        decreases values.len() - i,
    {
        match request_document(&values[i]) {
            Ok(d) => {
                let mut d = d;
                stamp(&mut d, now);
                docs.push(d);
            },
            Err(e) => {
                assert(is_first_failure(conv, i as int));
                return Err(e);
            },
        }
        i = i + 1;
    }
    Ok(docs)
}

/// Reads the clock once and prepares the documents of a bulk insert with
/// that reading, which is returned beside them.
pub fn prepare_insert_many_now(values: Vec<JsonValue>) -> (r: (Result<Vec<BsonDocument>, RepositoryError>, i64))
    ensures
        insert_many_prepared(serialized(values@), r.1, r.0),
{
    let now = now_millis();
    (prepare_insert_many(values, now), now)
}

/// The cursor position of a page reached by skipping `skip` documents and
/// returning `returned` of `total`: more follow when the page ends before
/// the total; some precede when anything was skipped. No cursor tokens.
pub fn offset_page_info(skip: u64, returned: u64, total: u64) -> (r: PageInfo)
    ensures
        r.has_next_page == (skip + returned < total),
        r.has_previous_page == (skip > 0),
        r.start_cursor is None,
        r.next_cursor is None,
{
    let next = if skip < total { returned < total - skip } else { false };
    PageInfo { has_next_page: next, has_previous_page: skip > 0, start_cursor: None, next_cursor: None }
}

} // verus!
