//! Fresh identifiers and creation times, drawn from the uuid and chrono crates.

use vstd::prelude::*;

verus! {

/// Relies on uuid's `Uuid::new_v4` and its `Display`, which writes the
/// hyphenated lower-case form: 32 hex digits and 4 hyphens.
#[verifier::external_body]
pub(crate) fn new_task_id() -> (r: String)
    ensures
        r@.len() == 36,
{
    uuid::Uuid::new_v4().to_string()
}

/// Relies on chrono's `Utc::now` and `DateTime::to_rfc3339`: the date, `T`,
/// the time to the second and the offset `+00:00` take at least 25 characters.
#[verifier::external_body]
pub(crate) fn now_rfc3339() -> (r: String)
    ensures
        r@.len() >= 25,
{
    chrono::Utc::now().to_rfc3339()
}

} // verus!
