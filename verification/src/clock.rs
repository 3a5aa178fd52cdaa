//! Wall-clock access. Both readings are trusted: nothing useful can be
//! promised about what the clock returns, so every function that
//! depends on a reading takes it as an argument and is verified for
//! all of its values.

use vstd::prelude::*;

verus! {

/// Relies on std::time::SystemTime::now and duration_since: the
/// seconds of wall-clock time since the Unix epoch, 0 when the clock
/// stands before it.
#[verifier::external_body]
pub fn now_seconds() -> u64 {
    std::time::SystemTime::now().duration_since(std::time::UNIX_EPOCH).map(
        |d| d.as_secs(),
    ).unwrap_or(0)
}

/// Relies on std::time::SystemTime::now and duration_since: the low
/// word of the nanoseconds since the Unix epoch, 0 when the clock
/// stands before it; used only to seed the disposition draw.
#[verifier::external_body]
pub fn now_nanos() -> u64 {
    std::time::SystemTime::now().duration_since(std::time::UNIX_EPOCH).map(
        |d| d.as_nanos() as u64,
    ).unwrap_or(0)
}

} // verus!
