//! The few places where the model leans on code outside the crate:
//! fresh random identifiers, the wall clock, and Unicode case folding.
//! Each wrapper states only what the called code is documented to do.

use vstd::prelude::*;

verus! {

/// Relies on `uuid::Uuid::new_v4`: a fresh random version-4 identifier,
/// returned as its 128-bit value. Nothing is promised of the value.
#[verifier::external_body]
pub(crate) fn fresh_uuid_bits() -> u128 {
    uuid::Uuid::new_v4().as_u128()
}

/// Relies on `chrono::Utc::now`: the current wall-clock time, returned
/// as milliseconds since the Unix epoch. Nothing is promised of the
/// value, since it depends on the clock.
#[verifier::external_body]
pub(crate) fn now_timestamp_millis() -> i64 {
    chrono::Utc::now().timestamp_millis()
}

/// The characters of `s` folded to lower case, as `str::to_lowercase`
/// folds them. The mapping depends on the characters alone, so it can be
/// given a name, but it is far too large to write out.
pub uninterp spec fn lower_of(s: Seq<char>) -> Seq<char>;

/// Relies on `str::to_lowercase`: the Unicode lowercase mapping of the
/// string, a function of its characters alone.
#[verifier::external_body]
pub(crate) fn lowercase(s: &str) -> (r: String)
    ensures
        r@ == lower_of(s@),
{
    s.to_lowercase()
}

} // verus!
