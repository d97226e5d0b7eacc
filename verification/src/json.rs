//! A plain model of the JSON shapes the pipeline reads: strings, arrays and
//! objects. Everything else a payload may hold (numbers, booleans, null) is
//! never inspected downstream and collapses to one opaque variant. The caller
//! that parses a response body converts its parsed tree into this type.

use vstd::prelude::*;

use crate::text::str_eq;

verus! {

/// One JSON value, as far as this pipeline distinguishes values.
pub enum Json {
    /// A value the pipeline never reads: a number, a boolean or null.
    Other,
    Str(String),
    Arr(Vec<Json>),
    Obj(Vec<(String, Json)>),
}

/// Why a required field could not be read from an object.
#[derive(Clone, Copy, Debug, PartialEq, Eq, Structural)]
pub enum FieldError {
    /// The key is absent, or the value holding it is not an object.
    Missing,
    /// The key is present but its value is not a string.
    NotAString,
}

/// The value under `key` in an association list of fields: the first binding
/// of the key wins, as in an object whose keys are unique.
pub open spec fn obj_lookup(fields: Seq<(String, Json)>, key: Seq<char>) -> Option<Json>
    decreases fields.len(),
{
    if fields.len() == 0 {
        None
    } else if fields[0].0@ == key {
        Some(fields[0].1)
    } else {
        obj_lookup(fields.drop_first(), key)
    }
}

/// The value under `key` when `j` is an object that has it; `None` otherwise.
pub open spec fn spec_get(j: Json, key: Seq<char>) -> Option<Json> {
    match j {
        Json::Obj(fields) => obj_lookup(fields@, key),
        _ => None,
    }
}

/// The characters of the string under `key`, when `j` is an object and the
/// value under `key` is a string.
pub open spec fn str_field(j: Json, key: Seq<char>) -> Option<Seq<char>> {
    match spec_get(j, key) {
        Some(Json::Str(s)) => Some(s@),
        _ => None,
    }
}

/// The characters of the string under `key`, defaulting to the empty
/// sequence; meaningful where `str_field` is known to be `Some`.
pub open spec fn field_val(j: Json, key: Seq<char>) -> Seq<char> {
    match str_field(j, key) {
        Some(s) => s,
        None => Seq::empty(),
    }
}

/// The reason `str_field(j, key)` is `None`.
pub open spec fn field_failure(j: Json, key: Seq<char>) -> FieldError {
    if spec_get(j, key) is None {
        FieldError::Missing
    } else {
        FieldError::NotAString
    }
}

/// Field lookup on a value: `Some` exactly when the value is an object with
/// the key, as `spec_get` states it.
pub fn get<'a>(j: &'a Json, key: &str) -> (r: Option<&'a Json>)
    ensures
        match r {
            Some(v) => spec_get(*j, key@) == Some(*v),
            None => spec_get(*j, key@) is None,
        },
{
    match j {
        Json::Obj(fields) => {
            let n = fields.len();
            let mut i: usize = 0;
            proof {
                assert(fields@.skip(0) =~= fields@);
            }
            while i < n
                invariant
                    i <= n,
                    n == fields@.len(),
                    *j == Json::Obj(*fields),
                    obj_lookup(fields@, key@) == obj_lookup(fields@.skip(i as int), key@),
                decreases n - i,
            {
                proof {
                    assert(fields@.skip(i as int)[0] == fields@[i as int]);
                    assert(fields@.skip(i as int).drop_first() =~= fields@.skip(i as int + 1));
                }
                if str_eq(fields[i].0.as_str(), key) {
                    proof {
                        assert(fields@.skip(i as int)[0].0@ == key@);
                        assert(obj_lookup(fields@.skip(i as int), key@) == Some(
                            fields@[i as int].1,
                        ));
                        assert(spec_get(*j, key@) == obj_lookup(fields@, key@));
                    }
                    return Some(&fields[i].1);
                }
                i += 1;
            }
            proof {
                assert(fields@.skip(n as int) =~= Seq::<(String, Json)>::empty());
            }
            None
        },
        _ => None,
    }
}

/// The helper the record mapper leans on: the string under `key`, or the
/// reason there is none. Success exactly when the object holds a string
/// under the key.
pub fn get_required_string_field(j: &Json, key: &str) -> (r: Result<String, FieldError>)
    ensures
        match r {
            Ok(s) => str_field(*j, key@) == Some(s@),
            Err(e) => str_field(*j, key@) is None && e == field_failure(*j, key@),
        },
{
    match get(j, key) {
        None => Err(FieldError::Missing),
        Some(v) => match v {
            Json::Str(s) => Ok(s.clone()),
            _ => Err(FieldError::NotAString),
        },
    }
}

} // verus!
