//! The one domain entity: a record of a live channel, built from a raw
//! result object, and the keyword predicate over its title.

use vstd::prelude::*;

use crate::json::{
    field_failure, field_val, get_required_string_field, str_field, FieldError, Json,
};
use crate::text::{casefold, contains_sub, spec_contains, to_lower};

verus! {

/// A normalized search result. Fields are taken verbatim from the raw
/// object; the record carries no other state.
#[derive(Debug)]
pub struct Record {
    pub language: String,
    pub display_name: String,
    pub title: String,
    pub category_id: String,
}

/// Which of the four required fields could not be read.
#[derive(Clone, Copy, Debug, PartialEq, Eq, Structural)]
pub enum FieldName {
    Language,
    DisplayName,
    Title,
    CategoryId,
}

/// A raw result object that cannot become a record: the first required
/// field, in declaration order, that is missing or not a string.
#[derive(Clone, Copy, Debug, PartialEq, Eq, Structural)]
pub struct RecordError {
    pub field: FieldName,
    pub kind: FieldError,
}

pub open spec fn language_key() -> Seq<char> {
    "broadcaster_language"@
}

pub open spec fn name_key() -> Seq<char> {
    "display_name"@
}

pub open spec fn title_key() -> Seq<char> {
    "title"@
}

pub open spec fn category_key() -> Seq<char> {
    "game_id"@
}

/// The raw object holds all four required fields as strings.
pub open spec fn complete(j: Json) -> bool {
    &&& str_field(j, language_key()) is Some
    &&& str_field(j, name_key()) is Some
    &&& str_field(j, title_key()) is Some
    &&& str_field(j, category_key()) is Some
}

/// `rec` carries, verbatim, the four required string fields of `j`.
pub open spec fn record_matches(rec: Record, j: Json) -> bool {
    &&& str_field(j, language_key()) == Some(rec.language@)
    &&& str_field(j, name_key()) == Some(rec.display_name@)
    &&& str_field(j, title_key()) == Some(rec.title@)
    &&& str_field(j, category_key()) == Some(rec.category_id@)
}

/// The error an incomplete raw object maps to: the first required field that
/// fails, with the way it fails.
pub open spec fn first_failure(j: Json) -> RecordError {
    if str_field(j, language_key()) is None {
        RecordError { field: FieldName::Language, kind: field_failure(j, language_key()) }
    } else if str_field(j, name_key()) is None {
        RecordError { field: FieldName::DisplayName, kind: field_failure(j, name_key()) }
    } else if str_field(j, title_key()) is None {
        RecordError { field: FieldName::Title, kind: field_failure(j, title_key()) }
    } else {
        RecordError { field: FieldName::CategoryId, kind: field_failure(j, category_key()) }
    }
}

/// The mapper: one raw result object to one record. Succeeds exactly when
/// all four required fields are present as strings, and then copies them
/// verbatim; fails with the first field that cannot be read.
pub fn to_record(j: &Json) -> (r: Result<Record, RecordError>)
    ensures
        r is Ok <==> complete(*j),
        r matches Ok(rec) ==> record_matches(rec, *j),
        r matches Err(e) ==> e == first_failure(*j),
{
    let language = match get_required_string_field(j, "broadcaster_language") {
        Ok(s) => s,
        Err(e) => {
            return Err(RecordError { field: FieldName::Language, kind: e });
        },
    };
    let display_name = match get_required_string_field(j, "display_name") {
        Ok(s) => s,
        Err(e) => {
            return Err(RecordError { field: FieldName::DisplayName, kind: e });
        },
    };
    let title = match get_required_string_field(j, "title") {
        Ok(s) => s,
        Err(e) => {
            return Err(RecordError { field: FieldName::Title, kind: e });
        },
    };
    let category_id = match get_required_string_field(j, "game_id") {
        Ok(s) => s,
        Err(e) => {
            return Err(RecordError { field: FieldName::CategoryId, kind: e });
        },
    };
    Ok(Record { language, display_name, title, category_id })
}

/// The fixed keyword the filter looks for in a folded title.
pub open spec fn keyword() -> Seq<char> {
    "rust"@
}

/// A record survives the filter: its title, case-folded, contains the
/// keyword.
pub open spec fn spec_keep(rec: Record) -> bool {
    spec_contains(casefold(rec.title@), keyword())
}

/// The same predicate over a raw object's title field.
pub open spec fn json_keep(j: Json) -> bool {
    spec_contains(casefold(field_val(j, title_key())), keyword())
}

/// The filter predicate: true exactly when the case-folded title contains
/// the keyword.
pub fn filter(entry: &Record) -> (r: bool)
    ensures
        r == spec_keep(*entry),
{
    let folded = to_lower(entry.title.as_str());
    contains_sub(folded.as_str(), "rust")
}

} // verus!
