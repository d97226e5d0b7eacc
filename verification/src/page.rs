//! One page of results: pull the continuation cursor and the result array
//! out of a response body, and map every raw object into a record.

use vstd::prelude::*;

use crate::json::{get, get_required_string_field, spec_get, str_field, Json};
use crate::record::{complete, first_failure, record_matches, to_record, Record, RecordError};

verus! {

pub open spec fn pagination_key() -> Seq<char> {
    "pagination"@
}

pub open spec fn cursor_key() -> Seq<char> {
    "cursor"@
}

pub open spec fn data_key() -> Seq<char> {
    "data"@
}

/// The continuation cursor of a page: the string under `pagination.cursor`.
/// Absence at any level, or a non-string value, yields `None`.
pub open spec fn cursor_of(page: Json) -> Option<Seq<char>> {
    match spec_get(page, pagination_key()) {
        Some(p) => str_field(p, cursor_key()),
        None => None,
    }
}

/// The result array of a page: the array under `data`. A missing `data`
/// field, or one that is not an array, yields `None` — the natural end of
/// results, not an error.
pub open spec fn data_of(page: Json) -> Option<Seq<Json>> {
    match spec_get(page, data_key()) {
        Some(Json::Arr(items)) => Some(items@),
        _ => None,
    }
}

/// Every raw object of the array holds all four required string fields.
pub open spec fn all_complete(items: Seq<Json>) -> bool {
    forall|k: int| 0 <= k < items.len() ==> complete(#[trigger] items[k])
}

/// The index of the first raw object that is not complete.
pub open spec fn first_incomplete(items: Seq<Json>) -> int
    decreases items.len(),
{
    if items.len() == 0 {
        0
    } else if !complete(items[0]) {
        0
    } else {
        1 + first_incomplete(items.drop_first())
    }
}

proof fn lemma_first_incomplete(items: Seq<Json>, k: int)
    requires
        0 <= k < items.len(),
        !complete(items[k]),
        forall|m: int| 0 <= m < k ==> complete(#[trigger] items[m]),
    ensures
        first_incomplete(items) == k,
    decreases k,
{
    if k == 0 {
    } else {
        let rest = items.drop_first();
        assert forall|m: int| 0 <= m < k - 1 implies complete(#[trigger] rest[m]) by {
            assert(rest[m] == items[m + 1]);
        }
        assert(rest[k - 1] == items[k]);
        lemma_first_incomplete(rest, k - 1);
    }
}

/// What one page yields for the driver.
pub enum PageOutcome {
    /// No `data` array: the natural end of results, a successful stop.
    EndOfData,
    /// A full batch of records and the cursor of the next page, if any.
    Batch { records: Vec<Record>, cursor: Option<String> },
    /// A raw object that cannot become a record: the run stops with an
    /// error.
    BadRecord { error: RecordError },
}

/// Read the continuation cursor of a page.
pub fn extract_cursor(page: &Json) -> (r: Option<String>)
    ensures
        r.deep_view() == cursor_of(*page),
{
    match get(page, "pagination") {
        Some(p) => match get_required_string_field(p, "cursor") {
            Ok(s) => Some(s),
            Err(_) => None,
        },
        None => None,
    }
}

/// Process one page body: extract the cursor, find the result array, map
/// every raw object. The outcome is `EndOfData` exactly when the page has
/// no result array; otherwise the whole batch of records with the next
/// cursor, or the error of the first raw object that cannot become a
/// record.
pub fn process_page(page: &Json) -> (r: PageOutcome)
    ensures
        r is EndOfData <==> data_of(*page) is None,
        data_of(*page) matches Some(items) ==> if all_complete(items) {
            r matches PageOutcome::Batch { records, cursor } && records@.len() == items.len()
                && (forall|k: int|
                0 <= k < items.len() ==> record_matches(
                    #[trigger] records@[k],
                    items[k],
                )) && cursor.deep_view() == cursor_of(*page)
        } else {
            r == (PageOutcome::BadRecord {
                error: first_failure(items[first_incomplete(items)]),
            })
        },
{
    let cursor = extract_cursor(page);
    let items = match get(page, "data") {
        Some(v) => match v {
            Json::Arr(items) => items,
            _ => {
                return PageOutcome::EndOfData;
            },
        },
        None => {
            return PageOutcome::EndOfData;
        },
    };
    let n = items.len();
    let mut records: Vec<Record> = Vec::new();
    let mut k: usize = 0;
    while k < n
        invariant
            k <= n,
            n == items@.len(),
            data_of(*page) == Some(items@),
            records@.len() == k,
            forall|m: int| 0 <= m < k ==> complete(#[trigger] items@[m]),
            forall|m: int| 0 <= m < k ==> record_matches(#[trigger] records@[m], items@[m]),
        decreases n - k,
    {
        match to_record(&items[k]) {
            Ok(rec) => {
                records.push(rec);
            },
            Err(error) => {
                proof {
                    lemma_first_incomplete(items@, k as int);
                }
                return PageOutcome::BadRecord { error };
            },
        }
        k += 1;
    }
    PageOutcome::Batch { records, cursor }
}

} // verus!
