//! The one place the library reads the wall clock.

use vstd::prelude::*;

verus! {

/// The wall clock, read as whole seconds since the Unix epoch.
///
/// Relies on `std::time::SystemTime::now` and
/// `duration_since(std::time::UNIX_EPOCH)`; a clock standing before the
/// epoch reads as zero. Nothing can be promised of the value returned.
#[verifier::external_body]
pub(crate) fn now_unix_secs() -> u64 {
    match std::time::SystemTime::now().duration_since(std::time::UNIX_EPOCH) {
        Ok(d) => d.as_secs(),
        Err(_) => 0,
    }
}

} // verus!
