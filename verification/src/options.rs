//! Options that a command carries as the members of a JSON object.

use vstd::prelude::*;
use vstd::string::*;

use crate::json::{Json, JsonValue};
use crate::text::{agrees, decimal, decimal_text};

verus! {

/// The text under `key`, or `default` where there is none.
pub open spec fn text_option(object: Json, key: Seq<char>, default: Seq<char>) -> Seq<char> {
    match object.member(key) {
        Some(value) => match value.as_text() {
            Some(text) => text,
            None => default,
        },
        None => default,
    }
}

/// The truth value under `key`, or false where there is none.
pub open spec fn flag_option(object: Json, key: Seq<char>) -> bool {
    object.member(key) is Some && object.member(key)->0.as_truth() == Some(true)
}

/// The number of an option: the default where it is absent, an error where it is
/// no integer from `lo` to `hi`.
pub open spec fn bounded(
    value: Option<Json>,
    name: Seq<char>,
    lo: u32,
    hi: u32,
    default: u32,
) -> Result<u32, Seq<char>> {
    match value {
        None => Ok(default),
        Some(v) => match v.as_unsigned() {
            None => Err("cursor."@ + name + " must be a non-negative integer"@),
            Some(n) => if n > u32::MAX {
                Err("cursor."@ + name + " is out of range"@)
            } else if n < lo || n > hi {
                Err(
                    "cursor."@ + name + " must be between "@ + decimal(lo as nat) + " and "@
                        + decimal(hi as nat) + " (got "@ + decimal(n as nat) + ")"@,
                )
            } else {
                Ok(n as u32)
            },
        },
    }
}

/// The text under `key`, or `default` where there is none.
pub fn text_or<'a>(object: &'a JsonValue, key: &str, default: &'a str) -> (r: &'a str)
    ensures
        r@ == text_option(object@, key@, default@),
{
    match object.get(key) {
        Some(value) => match value.as_str() {
            Some(text) => text,
            None => default,
        },
        None => default,
    }
}

/// Whether `key` is set to true.
pub fn is_set(object: &JsonValue, key: &str) -> (r: bool)
    ensures
        r == flag_option(object@, key@),
{
    match object.get(key) {
        Some(value) => match value.as_bool() {
            Some(flag) => flag,
            None => false,
        },
        None => false,
    }
}

/// Reads a number and holds it to its bounds.
pub fn bounded_u32(
    value: Option<&JsonValue>,
    name: &str,
    lo: u32,
    hi: u32,
    default: u32,
) -> (r: Result<u32, String>)
    ensures
        agrees(
            r,
            bounded(
                match value {
                    Some(v) => Some(v@),
                    None => None,
                },
                name@,
                lo,
                hi,
                default,
            ),
        ),
{
    let given = match value {
        Some(v) => v,
        None => return Ok(default),
    };
    let mut message = "cursor.".to_owned();
    message.append(name);
    match given.as_u64() {
        None => {
            message.append(" must be a non-negative integer");
            Err(message)
        },
        Some(n) => {
            if n > u32::MAX as u64 {
                message.append(" is out of range");
                return Err(message);
            }
            let number: u32 = n as u32;
            if number < lo || number > hi {
                message.append(" must be between ");
                message.append(decimal_text(lo as u64).as_str());
                message.append(" and ");
                message.append(decimal_text(hi as u64).as_str());
                message.append(" (got ");
                message.append(decimal_text(n).as_str());
                message.append(")");
                return Err(message);
            }
            Ok(number)
        },
    }
}

} // verus!
