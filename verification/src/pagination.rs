//! One page of query results: the page arithmetic, the projection that
//! keeps database ids out of the results, and the assembly of the page.

use vstd::prelude::*;

use crate::document::{BsonDocument, BsonValue, BsonView};
use crate::entries::{insert_entry, lemma_lookup_insert_other, lemma_lookup_insert_same, lookup};
use crate::json::{convert_timestamps, timestamps_flattened, JsonValue};

verus! {

/// Where the cursor of a paginated query stands.
pub struct PageInfo {
    pub has_next_page: bool,
    pub has_previous_page: bool,
    pub start_cursor: Option<String>,
    pub next_cursor: Option<String>,
}

/// One page of results of a query.
pub struct PaginatedResults {
    pub has_next_page: bool,
    pub has_previous_page: bool,
    pub start_cursor: Option<String>,
    pub next_cursor: Option<String>,
    pub total_results: u64,
    pub page_size: i64,
    pub current_page: u64,
    pub results: Vec<JsonValue>,
}

/// The page size for a query limit: the limit itself, raised to one where
/// it is smaller; one where there is no limit.
pub open spec fn spec_page_size(limit: Option<i64>) -> i64 {
    match limit {
        Some(l) => if l < 1 { 1 } else { l },
        None => 1,
    }
}

/// The number of documents a query skips; none where unset.
pub open spec fn spec_skip(skip: Option<u64>) -> u64 {
    match skip {
        Some(s) => s,
        None => 0,
    }
}

/// The zero-based page that starts after `skip` documents.
pub open spec fn spec_current_page(skip: Option<u64>, page_size: i64) -> int {
    spec_skip(skip) as int / page_size as int
}

pub fn page_size(limit: Option<i64>) -> (r: i64)
    ensures
        r == spec_page_size(limit),
        r >= 1,
        limit matches Some(l) ==> (l >= 1 ==> r == l),
        !(limit matches Some(l) && l >= 1) ==> r == 1,
{
    match limit {
        Some(l) => if l < 1 { 1 } else { l },
        None => 1,
    }
}

pub fn current_page(skip: Option<u64>, page_size: i64) -> (r: u64)
    requires
        page_size >= 1,
    ensures
        r == spec_current_page(skip, page_size),
{
    let s: u64 = match skip {
        Some(s) => s,
        None => 0,
    };
    let p: u64 = page_size as u64;
    s / p
}

/// The projection of a paginated query: the caller's projection, or an
/// empty one, with `_id` excluded.
pub open spec fn spec_find_projection(projection: Option<Seq<(Seq<char>, BsonView)>>) -> Seq<(Seq<char>, BsonView)> {
    match projection {
        Some(p) => insert_entry(p, "_id"@, BsonView::Int32(0)),
        None => seq![("_id"@, BsonView::Int32(0))],
    }
}

pub fn find_projection(projection: Option<BsonDocument>) -> (r: BsonDocument)
    ensures
        r@ == spec_find_projection(match projection {
            Some(p) => Some(p@),
            None => None,
        }),
{
    match projection {
        Some(p) => {
            let mut p = p;
            p.insert("_id", BsonValue::Int32(0));
            p
        },
        None => {
            let mut p = BsonDocument::new();
            p.insert("_id", BsonValue::Int32(0));
            assert(p@ =~= seq![("_id"@, BsonView::Int32(0))]);
            p
        },
    }
}

/// A query's page size is its limit whenever the limit is at least one;
/// only a limit below one, or no limit, gives a page of one.
pub proof fn lemma_page_size_is_limit(limit: Option<i64>)
    ensures
        forall|l: i64| l >= 1 ==> #[trigger] spec_page_size(Some(l)) == l,
        forall|l: i64| l < 1 ==> #[trigger] spec_page_size(Some(l)) == 1,
        spec_page_size(None) == 1,
        limit matches Some(l) ==> (l >= 1 ==> spec_page_size(limit) == l),
{
}

/// The page size is at least one, and the current page is the one that
/// holds the first document after the skipped ones.
pub proof fn lemma_page_bounds(limit: Option<i64>, skip: Option<u64>)
    ensures
        spec_page_size(limit) >= 1,
        spec_current_page(skip, spec_page_size(limit)) * spec_page_size(limit) <= spec_skip(skip),
        spec_skip(skip) < (spec_current_page(skip, spec_page_size(limit)) + 1) * spec_page_size(limit),
{
    let p = spec_page_size(limit) as int;
    let s = spec_skip(skip) as int;
    assert(p >= 1);
    assert((s / p) * p <= s && s < (s / p + 1) * p) by (nonlinear_arith)
        requires
            p >= 1,
            s >= 0,
    ;
}

/// The projection of a paginated query always excludes `_id` and leaves
/// every other field of the caller's projection as it was.
pub proof fn lemma_find_projection(projection: Option<Seq<(Seq<char>, BsonView)>>)
    ensures
        lookup(spec_find_projection(projection), "_id"@) == Some(BsonView::Int32(0)),
        forall|other: Seq<char>|
            other != "_id"@ ==> #[trigger] lookup(spec_find_projection(projection), other) == match projection {
                Some(p) => lookup(p, other),
                None => None,
            },
{
    let v = BsonView::Int32(0);
    let empty = Seq::<(Seq<char>, BsonView)>::empty();
    let base = match projection {
        Some(p) => p,
        None => empty,
    };
    assert(spec_find_projection(projection) == insert_entry(base, "_id"@, v)) by {
        if projection is None {
            assert(insert_entry(empty, "_id"@, v) =~= seq![("_id"@, v)]);
        }
    }
    lemma_lookup_insert_same(base, "_id"@, v);
    assert forall|other: Seq<char>| other != "_id"@ implies #[trigger] lookup(spec_find_projection(projection), other)
        == match projection {
        Some(p) => lookup(p, other),
        None => None,
    } by {
        lemma_lookup_insert_other(base, "_id"@, other, v);
    }
}

/// Assembles a page: the cursor position and total as the query reported
/// them, the page size and number from the limit and skip of the query, and
/// each found value with its time stamps flattened, in order.
pub fn paginate(info: PageInfo, total_count: u64, items: Vec<JsonValue>, limit: Option<i64>, skip: Option<u64>) -> (r: PaginatedResults)
    ensures
        r.has_next_page == info.has_next_page,
        r.has_previous_page == info.has_previous_page,
        r.start_cursor == info.start_cursor,
        r.next_cursor == info.next_cursor,
        r.total_results == total_count,
        r.page_size == spec_page_size(limit),
        r.current_page == spec_current_page(skip, spec_page_size(limit)),
        r.results.len() == items.len(),
        forall|i: int| 0 <= i < items.len() ==> timestamps_flattened(#[trigger] items[i], r.results[i]),
{
    let size = page_size(limit);
    let page = current_page(skip, size);
    let mut items = items;
    let ghost original = items@;
    let mut results: Vec<JsonValue> = Vec::new();
    let mut i: usize = 0;
    while i < items.len()
        invariant
            i <= items.len(),
            items.len() == original.len(),
            results.len() == i,
            forall|j: int| i <= j < original.len() ==> items@[j] == original[j],
            forall|j: int| 0 <= j < i ==> timestamps_flattened(#[trigger] original[j], results@[j]),
        decreases items.len() - i,
    {
        let mut v = JsonValue::Null;
        items.set_and_swap(i, &mut v);
        convert_timestamps(&mut v);
        results.push(v);
        i = i + 1;
    }
    PaginatedResults {
        has_next_page: info.has_next_page,
        has_previous_page: info.has_previous_page,
        start_cursor: info.start_cursor,
        next_cursor: info.next_cursor,
        total_results: total_count,
        page_size: size,
        current_page: page,
        results,
    }
}

} // verus!
