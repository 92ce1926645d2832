//! Field readers for the JSON objects that carry domain values, following
//! the wire's conventions: a required field must be present with the right
//! shape; an optional field may be absent or `null`; a defaulted boolean
//! reads `false` when absent.  Each reader's outer `Option` is `None`
//! exactly when the document is malformed at that field.

use vstd::prelude::*;

use crate::json::{Json, JsonVal, json_bool, json_get, json_str, json_u64, jv_bool, jv_get, jv_str,
    jv_u64};
use crate::model::id::spec_snowflake;

verus! {

/// A required unsigned-integer field.
pub open spec fn spec_req_u64(v: JsonVal, key: Seq<char>) -> Option<u64> {
    match jv_get(v, key) {
        Option::Some(x) => jv_u64(x),
        Option::None => None,
    }
}

/// A required string field.
pub open spec fn spec_req_str(v: JsonVal, key: Seq<char>) -> Option<Seq<char>> {
    match jv_get(v, key) {
        Option::Some(x) => jv_str(x),
        Option::None => None,
    }
}

/// A required boolean field.
pub open spec fn spec_req_bool(v: JsonVal, key: Seq<char>) -> Option<bool> {
    match jv_get(v, key) {
        Option::Some(x) => jv_bool(x),
        Option::None => None,
    }
}

/// A boolean field that reads `false` when absent.
pub open spec fn spec_default_bool(v: JsonVal, key: Seq<char>) -> Option<bool> {
    match jv_get(v, key) {
        Option::Some(x) => jv_bool(x),
        Option::None => Some(false),
    }
}

/// A required snowflake field (number or decimal-string form).
pub open spec fn spec_req_snowflake(v: JsonVal, key: Seq<char>) -> Option<u64> {
    match jv_get(v, key) {
        Option::Some(x) => spec_snowflake(x),
        Option::None => None,
    }
}

/// An optional string field: absent or `null` reads as `None`.
pub open spec fn spec_opt_str(v: JsonVal, key: Seq<char>) -> Option<Option<Seq<char>>> {
    match jv_get(v, key) {
        Option::None => Some(None),
        Option::Some(JsonVal::Null) => Some(None),
        Option::Some(JsonVal::Str(s)) => Some(Some(s)),
        Option::Some(_) => None,
    }
}

/// An optional unsigned-integer field: absent or `null` reads as `None`.
pub open spec fn spec_opt_u64(v: JsonVal, key: Seq<char>) -> Option<Option<u64>> {
    match jv_get(v, key) {
        Option::None => Some(None),
        Option::Some(JsonVal::Null) => Some(None),
        Option::Some(JsonVal::Num(n)) => Some(Some(n)),
        Option::Some(_) => None,
    }
}

/// An optional snowflake field: absent or `null` reads as `None`.
pub open spec fn spec_opt_snowflake(v: JsonVal, key: Seq<char>) -> Option<Option<u64>> {
    match jv_get(v, key) {
        Option::None => Some(None),
        Option::Some(JsonVal::Null) => Some(None),
        Option::Some(x) => match spec_snowflake(x) {
            Option::Some(n) => Some(Some(n)),
            Option::None => None,
        },
    }
}

/// The view of an optional owned string.
pub open spec fn view_opt_str(o: Option<String>) -> Option<Seq<char>> {
    match o {
        Option::Some(s) => Some(s@),
        Option::None => None,
    }
}

/// Reads a required unsigned-integer field.
pub fn req_u64(j: &Json, key: &str) -> (r: Option<u64>)
    ensures
        r == spec_req_u64(j@, key@),
{
    match json_get(j, key) {
        Some(x) => json_u64(x),
        None => None,
    }
}

/// Reads a required string field.
pub fn req_string(j: &Json, key: &str) -> (r: Option<String>)
    ensures
        r matches Some(s) ==> spec_req_str(j@, key@) == Some(s@),
        r is None ==> spec_req_str(j@, key@) is None,
{
    match json_get(j, key) {
        Some(x) => match json_str(x) {
            Some(s) => Some(s.clone()),
            None => None,
        },
        None => None,
    }
}

/// Reads a required boolean field.
pub fn req_bool(j: &Json, key: &str) -> (r: Option<bool>)
    ensures
        r == spec_req_bool(j@, key@),
{
    match json_get(j, key) {
        Some(x) => json_bool(x),
        None => None,
    }
}

/// Reads a boolean field, `false` when absent.
pub fn default_bool(j: &Json, key: &str) -> (r: Option<bool>)
    ensures
        r == spec_default_bool(j@, key@),
{
    match json_get(j, key) {
        Some(x) => json_bool(x),
        None => Some(false),
    }
}

/// Reads a required snowflake field.
pub fn req_snowflake(j: &Json, key: &str) -> (r: Option<u64>)
    ensures
        r == spec_req_snowflake(j@, key@),
{
    match json_get(j, key) {
        Some(x) => crate::model::id::snowflake_from_json(x),
        None => None,
    }
}

/// Reads an optional string field.
pub fn opt_string(j: &Json, key: &str) -> (r: Option<Option<String>>)
    ensures
        r matches Some(o) ==> spec_opt_str(j@, key@) == Some(view_opt_str(o)),
        r is None ==> spec_opt_str(j@, key@) is None,
{
    match json_get(j, key) {
        Some(x) => match x {
            Json::Null => Some(None),
            Json::Str(s) => Some(Some(s.clone())),
            _ => None,
        },
        None => Some(None),
    }
}

/// Reads an optional unsigned-integer field.
pub fn opt_u64(j: &Json, key: &str) -> (r: Option<Option<u64>>)
    ensures
        r == spec_opt_u64(j@, key@),
{
    match json_get(j, key) {
        Some(x) => match x {
            Json::Null => Some(None),
            Json::Num(n) => Some(Some(*n)),
            _ => None,
        },
        None => Some(None),
    }
}

/// Reads an optional snowflake field.
pub fn opt_snowflake(j: &Json, key: &str) -> (r: Option<Option<u64>>)
    ensures
        r == spec_opt_snowflake(j@, key@),
{
    match json_get(j, key) {
        Some(x) => match x {
            Json::Null => Some(None),
            _ => match crate::model::id::snowflake_from_json(x) {
                Some(n) => Some(Some(n)),
                None => None,
            },
        },
        None => Some(None),
    }
}

} // verus!
