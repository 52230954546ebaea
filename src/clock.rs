use vstd::prelude::*;

verus! {

/// Relies on chrono's `Local::now` and `DateTime::to_rfc3339`: the current
/// local time as RFC 3339 text. The value depends on the clock, so nothing
/// is promised of it.
#[verifier::external_body]
pub(crate) fn now_rfc3339() -> (r: String) {
    chrono::offset::Local::now().to_rfc3339()
}

} // verus!
