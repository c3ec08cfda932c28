//! Reading typed fields out of a decoded JSON tree.
//!
//! The exchange is loose about its JSON: monetary fields arrive sometimes
//! as numbers and sometimes as quoted strings, identifiers and instants as
//! strings, flags as booleans. Each helper here reads one field of an
//! object in that tolerant way, with a spec twin that says exactly which
//! trees succeed and what value they yield. A missing or mistyped field is
//! a [`Error::Json`] decode failure, never a default.

use vstd::prelude::*;

use crate::clock::{rfc3339_parsed, Timestamp};
use crate::decimal::{dec_parse, dec_wf, Decimal};
use crate::ids::{uuid_text_wf, Uuid};
use crate::json::{field_of, Json, JsonVal};
use crate::Error;

verus! {

/// The field's text, when it is a JSON string.
pub open spec fn str_field(t: JsonVal, key: Seq<char>) -> Option<Seq<char>> {
    match field_of(t, key) {
        Some(JsonVal::Str(s)) => Some(s),
        _ => None,
    }
}

/// The field's value as an exact decimal, whether it arrives as a bare
/// JSON number or quoted.
pub open spec fn dec_field(t: JsonVal, key: Seq<char>) -> Option<Decimal> {
    match field_of(t, key) {
        Some(JsonVal::Num(x)) => dec_parse(x),
        Some(JsonVal::Str(x)) => dec_parse(x),
        _ => None,
    }
}

/// The field's value as an unsigned integer: a decimal with no sign and no
/// fraction digits.
pub open spec fn u64_field(t: JsonVal, key: Seq<char>) -> Option<u64> {
    match dec_field(t, key) {
        Some(d) => if !d.negative && d.scale == 0 {
            Some(d.mantissa)
        } else {
            None
        },
        None => None,
    }
}

/// The field's boolean.
pub open spec fn bool_field(t: JsonVal, key: Seq<char>) -> Option<bool> {
    match field_of(t, key) {
        Some(JsonVal::Bool(b)) => Some(b),
        _ => None,
    }
}

/// The field's text, when it is a string in canonical UUID shape.
pub open spec fn uuid_field(t: JsonVal, key: Seq<char>) -> Option<Seq<char>> {
    match str_field(t, key) {
        Some(s) => if uuid_text_wf(s) {
            Some(s)
        } else {
            None
        },
        None => None,
    }
}

/// The field's instant, when it is a string in RFC 3339 shape.
pub open spec fn time_field(t: JsonVal, key: Seq<char>) -> Option<(i64, u32)> {
    match str_field(t, key) {
        Some(s) => rfc3339_parsed(s),
        None => None,
    }
}

/// The field's order side, decoded case-insensitively.
pub open spec fn side_field(t: JsonVal, key: Seq<char>) -> Option<crate::Side> {
    match str_field(t, key) {
        Some(s) => crate::side_of_chars(s),
        None => None,
    }
}

/// Is the field absent or JSON `null`? Optional fields may be left out or
/// sent as `null`; both read as "nothing".
pub open spec fn field_missing(t: JsonVal, key: Seq<char>) -> bool {
    match field_of(t, key) {
        None => true,
        Some(JsonVal::Null) => true,
        Some(_) => false,
    }
}

/// The field's elements, when it is a JSON array.
pub open spec fn arr_field(t: JsonVal, key: Seq<char>) -> Option<Seq<JsonVal>> {
    match field_of(t, key) {
        Some(JsonVal::Arr(s)) => Some(s),
        _ => None,
    }
}

pub(crate) fn decode_error() -> (e: Error)
    ensures
        e is Json,
{
    Error::Json(String::from_str("a response field is missing or has the wrong shape"))
}

/// Read an array field.
pub fn get_arr<'a>(j: &'a Json, key: &str) -> (r: Result<&'a Vec<Json>, Error>)
    ensures
        match r {
            Ok(v) => arr_field(crate::json::json_view(*j), key@) == Some(
                crate::json::elements_view(v@),
            ),
            Err(e) => arr_field(crate::json::json_view(*j), key@) is None && e is Json,
        },
{
    match j.get(key) {
        Some(f) => match f {
            Json::Arr(v) => Ok(v),
            _ => Err(decode_error()),
        },
        None => Err(decode_error()),
    }
}

/// Did the exchange accept the request?
pub open spec fn is_success(status: u16) -> bool {
    200 <= status < 300
}

/// What a failed call surfaces as: the exchange's own message as an
/// [`Error::Api`] when the error body has its documented shape, and a
/// decode failure otherwise.
pub open spec fn error_case(t: JsonVal, e: Error) -> bool {
    match str_field(t, "message"@) {
        Some(m) => e matches Error::Api(a) && a.message@ == m,
        None => e is Json,
    }
}

/// The contract every response decoder meets, for a given success shape:
/// an unreadable body is a `Json` error; a non-success status surfaces the
/// exchange's message as an `Api` error; a success status decodes by the
/// endpoint's own shape (`ok` says which trees decode, `val` what the
/// decoded value holds).
pub open spec fn response_contract<T>(
    status: u16,
    body: Seq<char>,
    r: Result<T, Error>,
    ok: spec_fn(JsonVal) -> bool,
    val: spec_fn(JsonVal, T) -> bool,
) -> bool {
    match crate::json::json_parsed(body) {
        None => r matches Err(e) && e is Json,
        Some(t) => if !is_success(status) {
            r matches Err(e) && error_case(t, e)
        } else if ok(t) {
            r matches Ok(v) && val(t, v)
        } else {
            r matches Err(e) && e is Json
        },
    }
}

/// Parse a response body and sort out failure statuses; hands the tree on
/// exactly when the status is a success and the body is valid JSON.
pub fn check_response(status: u16, body: &str) -> (r: Result<Json, Error>)
    ensures
        match r {
            Ok(j) => is_success(status) && crate::json::json_parsed(body@) == Some(
                crate::json::json_view(j),
            ),
            Err(e) => match crate::json::json_parsed(body@) {
                None => e is Json,
                Some(t) => !is_success(status) && error_case(t, e),
            },
        },
{
    let j = match crate::json::parse_json(body) {
        Ok(j) => j,
        Err(e) => {
            return Err(e);
        },
    };
    if 200 <= status && status < 300 {
        Ok(j)
    } else {
        match get_str(&j, "message") {
            Ok(m) => Err(Error::Api(crate::ApiError { message: m })),
            Err(e) => Err(e),
        }
    }
}

/// Read a string field.
pub fn get_str(j: &Json, key: &str) -> (r: Result<String, Error>)
    ensures
        match r {
            Ok(s) => str_field(crate::json::json_view(*j), key@) == Some(s@),
            Err(e) => str_field(crate::json::json_view(*j), key@) is None && e is Json,
        },
{
    match j.get(key) {
        Some(f) => match f {
            Json::Str(s) => Ok(s.clone()),
            _ => Err(decode_error()),
        },
        None => Err(decode_error()),
    }
}

/// Read a monetary field, quoted or bare.
pub fn get_dec(j: &Json, key: &str) -> (r: Result<Decimal, Error>)
    ensures
        match r {
            Ok(d) => dec_field(crate::json::json_view(*j), key@) == Some(d) && dec_wf(d),
            Err(e) => dec_field(crate::json::json_view(*j), key@) is None && e is Json,
        },
{
    let text: &String = match j.get(key) {
        Some(f) => match f {
            Json::Num(x) => x,
            Json::Str(x) => x,
            _ => {
                return Err(decode_error());
            },
        },
        None => {
            return Err(decode_error());
        },
    };
    match Decimal::parse(text.as_str()) {
        Some(d) => {
            proof {
                crate::decimal::lemma_dec_parse_wf(text@);
            }
            Ok(d)
        },
        None => Err(decode_error()),
    }
}

/// Read an unsigned integer field.
pub fn get_u64(j: &Json, key: &str) -> (r: Result<u64, Error>)
    ensures
        match r {
            Ok(n) => u64_field(crate::json::json_view(*j), key@) == Some(n),
            Err(e) => u64_field(crate::json::json_view(*j), key@) is None && e is Json,
        },
{
    match get_dec(j, key) {
        Ok(d) => {
            if !d.negative && d.scale == 0 {
                Ok(d.mantissa)
            } else {
                Err(decode_error())
            }
        },
        Err(_) => Err(decode_error()),
    }
}

/// Read a boolean field.
pub fn get_bool(j: &Json, key: &str) -> (r: Result<bool, Error>)
    ensures
        match r {
            Ok(b) => bool_field(crate::json::json_view(*j), key@) == Some(b),
            Err(e) => bool_field(crate::json::json_view(*j), key@) is None && e is Json,
        },
{
    match j.get(key) {
        Some(f) => match f {
            Json::Bool(b) => Ok(*b),
            _ => Err(decode_error()),
        },
        None => Err(decode_error()),
    }
}

/// Read an identifier field.
pub fn get_uuid(j: &Json, key: &str) -> (r: Result<Uuid, Error>)
    ensures
        match r {
            Ok(u) => uuid_field(crate::json::json_view(*j), key@) == Some(u@),
            Err(e) => uuid_field(crate::json::json_view(*j), key@) is None && e is Json,
        },
{
    match get_str(j, key) {
        Ok(s) => match Uuid::parse(s.as_str()) {
            Some(u) => Ok(u),
            None => Err(decode_error()),
        },
        Err(_) => Err(decode_error()),
    }
}

/// Read an RFC 3339 instant field.
pub fn get_time(j: &Json, key: &str) -> (r: Result<Timestamp, Error>)
    ensures
        match r {
            Ok(t) => time_field(crate::json::json_view(*j), key@) == Some((t.secs, t.nanos)),
            Err(e) => time_field(crate::json::json_view(*j), key@) is None && e is Json,
        },
{
    match get_str(j, key) {
        Ok(s) => match Timestamp::parse(s.as_str()) {
            Some(t) => Ok(t),
            None => Err(decode_error()),
        },
        Err(_) => Err(decode_error()),
    }
}

/// Read an order-side field.
pub fn get_side(j: &Json, key: &str) -> (r: Result<crate::Side, Error>)
    ensures
        match r {
            Ok(s) => side_field(crate::json::json_view(*j), key@) == Some(s),
            Err(e) => side_field(crate::json::json_view(*j), key@) is None && e is Json,
        },
{
    match get_str(j, key) {
        Ok(s) => match crate::Side::parse(s.as_str()) {
            Some(side) => Ok(side),
            None => Err(decode_error()),
        },
        Err(_) => Err(decode_error()),
    }
}

/// Is the field absent or `null`?
pub fn is_missing(j: &Json, key: &str) -> (r: bool)
    ensures
        r == field_missing(crate::json::json_view(*j), key@),
{
    match j.get(key) {
        Some(f) => match f {
            Json::Null => true,
            _ => false,
        },
        None => true,
    }
}

/// The field's text, when present: absent or `null` reads as `None`.
pub open spec fn opt_str_field(t: JsonVal, key: Seq<char>) -> Option<Option<Seq<char>>> {
    if field_missing(t, key) {
        Some(None)
    } else {
        match str_field(t, key) {
            Some(v) => Some(Some(v)),
            None => None,
        }
    }
}

/// Read an optional text field.
pub fn get_opt_str(j: &Json, key: &str) -> (r: Result<Option<String>, Error>)
    ensures
        match r {
            Ok(None) => opt_str_field(crate::json::json_view(*j), key@) == Some(
                None::<Seq<char>>,
            ),
            Ok(Some(v)) => opt_str_field(crate::json::json_view(*j), key@) == Some(
                Some(v@),
            ),
            Err(e) => opt_str_field(crate::json::json_view(*j), key@) is None && e is Json,
        },
{
    if is_missing(j, key) {
        Ok(None)
    } else {
        match get_str(j, key) {
            Ok(v) => Ok(Some(v)),
            Err(e) => Err(e),
        }
    }
}

/// The field's integer, when present: absent or `null` reads as `None`.
pub open spec fn opt_u64_field(t: JsonVal, key: Seq<char>) -> Option<Option<u64>> {
    if field_missing(t, key) {
        Some(None)
    } else {
        match u64_field(t, key) {
            Some(v) => Some(Some(v)),
            None => None,
        }
    }
}

/// Read an optional integer field.
pub fn get_opt_u64(j: &Json, key: &str) -> (r: Result<Option<u64>, Error>)
    ensures
        match r {
            Ok(None) => opt_u64_field(crate::json::json_view(*j), key@) == Some(
                None::<u64>,
            ),
            Ok(Some(v)) => opt_u64_field(crate::json::json_view(*j), key@) == Some(
                Some(v),
            ),
            Err(e) => opt_u64_field(crate::json::json_view(*j), key@) is None && e is Json,
        },
{
    if is_missing(j, key) {
        Ok(None)
    } else {
        match get_u64(j, key) {
            Ok(v) => Ok(Some(v)),
            Err(e) => Err(e),
        }
    }
}

/// The field's identifier, when present: absent or `null` reads as `None`.
pub open spec fn opt_uuid_field(t: JsonVal, key: Seq<char>) -> Option<Option<Seq<char>>> {
    if field_missing(t, key) {
        Some(None)
    } else {
        match uuid_field(t, key) {
            Some(v) => Some(Some(v)),
            None => None,
        }
    }
}

/// Read an optional identifier field.
pub fn get_opt_uuid(j: &Json, key: &str) -> (r: Result<Option<Uuid>, Error>)
    ensures
        match r {
            Ok(None) => opt_uuid_field(crate::json::json_view(*j), key@) == Some(
                None::<Seq<char>>,
            ),
            Ok(Some(v)) => opt_uuid_field(crate::json::json_view(*j), key@) == Some(
                Some(v@),
            ),
            Err(e) => opt_uuid_field(crate::json::json_view(*j), key@) is None && e is Json,
        },
{
    if is_missing(j, key) {
        Ok(None)
    } else {
        match get_uuid(j, key) {
            Ok(v) => Ok(Some(v)),
            Err(e) => Err(e),
        }
    }
}

/// The field's instant, when present: absent or `null` reads as `None`.
pub open spec fn opt_time_field(t: JsonVal, key: Seq<char>) -> Option<Option<(i64, u32)>> {
    if field_missing(t, key) {
        Some(None)
    } else {
        match time_field(t, key) {
            Some(v) => Some(Some(v)),
            None => None,
        }
    }
}

/// Read an optional instant field.
pub fn get_opt_time(j: &Json, key: &str) -> (r: Result<Option<Timestamp>, Error>)
    ensures
        match r {
            Ok(None) => opt_time_field(crate::json::json_view(*j), key@) == Some(
                None::<(i64, u32)>,
            ),
            Ok(Some(v)) => opt_time_field(crate::json::json_view(*j), key@) == Some(
                Some((v.secs, v.nanos)),
            ),
            Err(e) => opt_time_field(crate::json::json_view(*j), key@) is None && e is Json,
        },
{
    if is_missing(j, key) {
        Ok(None)
    } else {
        match get_time(j, key) {
            Ok(v) => Ok(Some(v)),
            Err(e) => Err(e),
        }
    }
}

} // verus!
