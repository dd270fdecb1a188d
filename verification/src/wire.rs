//! Values as they travel between the front end and the editor.
//!
//! The editor speaks MessagePack; its values are `rmpv::Value`. This module
//! holds everything the library takes on trust about them: verified code sees
//! a value only through the two names below and the conversions stated over
//! them.

use rmpv::Value;
use vstd::prelude::*;

verus! {

#[verifier::external_type_specification]
#[verifier::external_body]
pub struct ExValue(rmpv::Value);

/// The integer that a value holds, if it is an integer. MessagePack integers
/// range from -(2^63) to 2^64 - 1.
pub uninterp spec fn value_integer(value: Value) -> Option<int>;

/// The text that a value holds, if it is a string of valid UTF-8.
pub uninterp spec fn value_text(value: Value) -> Option<Seq<char>>;

/// An integer as an unsigned 64-bit number, where it is one.
pub open spec fn unsigned(integer: Option<int>) -> Option<u64> {
    match integer {
        Some(n) if 0 <= n <= u64::MAX => Some(n as u64),
        _ => None,
    }
}

/// An integer as a signed 64-bit number, where it is one.
pub open spec fn signed(integer: Option<int>) -> Option<i64> {
    match integer {
        Some(n) if i64::MIN <= n <= i64::MAX => Some(n as i64),
        _ => None,
    }
}

/// `u64::try_from` on `rmpv::Value`: the number of an integer value that is not
/// negative, nothing for any other value.
#[verifier::external_body]
pub(crate) fn value_to_u64(value: Value) -> (number: Option<u64>)
    ensures
        number == unsigned(value_integer(value)),
{
    u64::try_from(value).ok()
}

/// `rmpv::Value::as_i64`: the number of an integer value that fits 64 signed
/// bits, nothing for any other value.
#[verifier::external_body]
pub(crate) fn value_as_i64(value: &Value) -> (number: Option<i64>)
    ensures
        number == signed(value_integer(*value)),
{
    value.as_i64()
}

/// `String::try_from` on `rmpv::Value`: the text of a string value that is
/// valid UTF-8, nothing for any other value.
#[verifier::external_body]
pub(crate) fn value_to_string(value: Value) -> (text: Option<String>)
    ensures
        match text {
            Some(text) => value_text(value) == Some(text@),
            None => value_text(value) is None,
        },
{
    String::try_from(value).ok()
}

/// `rmpv::Value::from` on a `u16`: an integer value holding that number.
#[verifier::external_body]
pub(crate) fn value_from_u16(number: u16) -> (value: Value)
    ensures
        value_integer(value) == Some(number as int),
{
    Value::from(number)
}

/// `rmpv::Value::from` on an `i32`: an integer value holding that number.
#[verifier::external_body]
pub(crate) fn value_from_i32(number: i32) -> (value: Value)
    ensures
        value_integer(value) == Some(number as int),
{
    Value::from(number)
}

} // verus!
