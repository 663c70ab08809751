//! The wall clock. Classification results and health snapshots carry a
//! timestamp; its value depends on when it is taken, so nothing more than
//! its shape can be promised.

use vstd::prelude::*;

verus! {

/// The current UTC time, rendered as an RFC 3339 date-and-time string.
///
/// Relies on chrono's `Utc::now` and `DateTime::to_rfc3339`: the rendering of
/// any instant in that format is never empty. The value itself depends on the
/// clock, so no two calls need agree.
#[verifier::external_body]
pub fn current_timestamp() -> (r: String)
    ensures
        r@.len() > 0,
{
    chrono::Utc::now().to_rfc3339()
}

} // verus!
