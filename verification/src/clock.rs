//! The one clock read the core makes. Expiry decisions are pure functions
//! of an explicit `now` argument; this supplies that argument at the entry
//! points that read the clock themselves.

use vstd::prelude::*;

verus! {

/// Relies on `chrono::Utc::now`: the current UTC time as whole seconds
/// since the Unix epoch. Nothing is promised of the clock's reading.
#[verifier::external_body]
pub(crate) fn now_timestamp() -> i64 {
    chrono::Utc::now().timestamp()
}

} // verus!
