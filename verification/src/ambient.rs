//! What the library takes from its surroundings: the wall clock and random
//! numbers. The declarations of outside types and functions here are taken
//! on trust; each says what it claims of the item that it stands for.

use rand::rngs::StdRng;
use rand::{Rng, SeedableRng};
use time::OffsetDateTime;
use vstd::prelude::*;

verus! {

/// `time::OffsetDateTime`, a date and time with a UTC offset. Its contents
/// are not looked at.
#[verifier::external_type_specification]
#[verifier::external_body]
pub struct ExOffsetDateTime(OffsetDateTime);

/// `OffsetDateTime::now_utc` reads the system clock. Nothing is claimed of
/// the moment it returns.
pub assume_specification[ OffsetDateTime::now_utc ]() -> (now: OffsetDateTime)
;

/// `OffsetDateTime::unix_timestamp` gives the seconds between the Unix epoch
/// and a moment. Nothing is claimed of the number.
pub assume_specification[ OffsetDateTime::unix_timestamp ](moment: OffsetDateTime) -> (seconds:
    i64)
;

/// `rand::rngs::StdRng`, the generator that draws latencies. Its state is not
/// looked at.
#[verifier::external_type_specification]
#[verifier::external_body]
pub struct ExStdRng(StdRng);

/// `SeedableRng::from_os_rng` for `StdRng`: a generator seeded from the
/// operating system. It panics where the system provides no entropy.
#[verifier::external_body]
pub(crate) fn seeded_generator() -> (generator: StdRng) {
    StdRng::from_os_rng()
}

/// `Rng::random_range` over `low..=high`: the value drawn lies in the range.
/// The call panics on an empty range, which `low <= high` rules out.
#[verifier::external_body]
pub(crate) fn draw_between(generator: &mut StdRng, low: u64, high: u64) -> (value: u64)
    requires
        low <= high,
    ensures
        low <= value <= high,
{
    generator.random_range(low..=high)
}

/// `rand::random` for `u16`: any value may come back. It panics where the
/// thread's generator cannot be seeded.
#[verifier::external_body]
pub(crate) fn fresh_identifier() -> (identifier: u16) {
    rand::random::<u16>()
}

/// The wall clock in seconds since the Unix epoch.
pub(crate) fn unix_now() -> (seconds: i64) {
    OffsetDateTime::now_utc().unix_timestamp()
}

} // verus!
