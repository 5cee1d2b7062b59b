//! The types and calls that this crate takes from other crates.
//!
//! Nothing here is proved. Each declaration makes a type known so that a
//! value of it can be carried through; each function states what the called
//! crate documents of its result.

use vstd::prelude::*;

verus! {

/// `uuid::Uuid`, the identifier of a device or of a group. Opaque.
#[verifier::external_type_specification]
#[verifier::external_body]
pub struct ExUuid(uuid::Uuid);

/// `http::Uri`, the network address of a device. Opaque.
#[verifier::external_type_specification]
#[verifier::external_body]
pub struct ExUri(http::Uri);

/// `macaddr::MacAddr6`, the hardware address of a device. Opaque.
#[verifier::external_type_specification]
#[verifier::external_body]
pub struct ExMacAddr6(macaddr::MacAddr6);

/// `chrono::TimeDelta`, which `chrono::Duration` names. Opaque.
#[verifier::external_type_specification]
#[verifier::external_body]
pub struct ExTimeDelta(chrono::TimeDelta);

/// `serde_json::Number`, the value of a numeric command field. Opaque.
#[verifier::external_type_specification]
#[verifier::external_body]
pub struct ExNumber(serde_json::Number);

/// `serde_json::Value`, the extra members that a method carries. Opaque.
#[verifier::external_type_specification]
#[verifier::external_body]
pub struct ExValue(serde_json::Value);

/// `Uuid::new_v4`: a version 4 identifier made from random bits. Nothing is
/// claimed of the value.
#[verifier::external_body]
pub(crate) fn fresh_uuid() -> uuid::Uuid {
    uuid::Uuid::new_v4()
}

/// What `TimeDelta::seconds` returns for a number of seconds.
pub uninterp spec fn span_of_seconds(seconds: i64) -> chrono::TimeDelta;

/// What `TimeDelta::milliseconds` returns for a number of milliseconds.
pub uninterp spec fn span_of_milliseconds(milliseconds: i64) -> chrono::TimeDelta;

/// `TimeDelta::seconds`: the span of that many seconds. The call panics
/// outside the range that `requires` gives, which is the range of spans that
/// can be held: `i64::MAX` milliseconds either way.
#[verifier::external_body]
pub(crate) fn span_seconds(seconds: i64) -> (span: chrono::TimeDelta)
    requires
        -9_223_372_036_854_775 <= seconds <= 9_223_372_036_854_775,
    ensures
        span == span_of_seconds(seconds),
{
    chrono::TimeDelta::seconds(seconds)
}

/// `TimeDelta::milliseconds`: the span of that many milliseconds. The call
/// panics for `i64::MIN` alone.
#[verifier::external_body]
pub(crate) fn span_milliseconds(milliseconds: i64) -> (span: chrono::TimeDelta)
    requires
        milliseconds > i64::MIN,
    ensures
        span == span_of_milliseconds(milliseconds),
{
    chrono::TimeDelta::milliseconds(milliseconds)
}

/// `Clone` of `http::Uri`, which the crate derives: the copy holds the same
/// scheme, authority and path as the value that it was made from.
pub assume_specification[ <http::Uri as Clone>::clone ](uri: &http::Uri) -> (copy: http::Uri)
    ensures
        copy == *uri,
;

/// `Clone` of `serde_json::Number`, which the crate derives: the copy holds
/// the same number as the value that it was made from.
pub assume_specification[ <serde_json::Number as Clone>::clone ](number: &serde_json::Number) -> (copy: serde_json::Number)
    ensures
        copy == *number,
;

/// `Clone` of `serde_json::Value`, which the crate derives: the copy holds
/// the same JSON value as the value that it was made from.
pub assume_specification[ <serde_json::Value as Clone>::clone ](value: &serde_json::Value) -> (copy: serde_json::Value)
    ensures
        copy == *value,
;

/// `==` of std on two string slices: whether they hold the same characters.
#[verifier::external_body]
pub(crate) fn text_eq(a: &str, b: &str) -> (same: bool)
    ensures
        same == (a@ == b@),
{
    a == b
}

} // verus!
