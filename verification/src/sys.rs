//! Wrappers around the clock and the id generator.

use vstd::prelude::*;

verus! {

/// Relies on chrono: `Utc::now().timestamp_millis()` is the wall clock in
/// milliseconds since the Unix epoch. Nothing can be promised of its value.
#[verifier::external_body]
pub fn now_millis() -> i64 {
    chrono::Utc::now().timestamp_millis()
}

/// Relies on uuid: `Uuid::new_v4()` draws a random v4 UUID, and its
/// `to_string` renders the 36-character hyphenated form. The value is
/// random; only the length is promised.
#[verifier::external_body]
pub fn fresh_uuid_string() -> (r: String)
    ensures
        r@.len() == 36,
{
    uuid::Uuid::new_v4().to_string()
}

} // verus!
