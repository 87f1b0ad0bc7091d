//! Trusted access to the `rand` crate.
//!
//! Two kinds of randomness are used. Spawning a streak draws fresh values
//! from a `ThreadRng`; nothing is promised of those beyond their range.
//! Rendering re-derives a streak's glyphs from its stored seed through a
//! `SmallRng`, a pure function of the seed, so the same streak shows the
//! same characters on every frame; that stream is given the name
//! [`alnum_byte`] and the contracts speak only of the name.

use rand::Rng;
use rand::SeedableRng;
use vstd::prelude::*;

verus! {

/// `rand::rngs::ThreadRng`, declared so spawning functions can take it.
/// A value of it is opaque: every draw from it may differ from the last.
#[verifier::external_type_specification]
#[verifier::external_body]
pub struct ExThreadRng(rand::rngs::ThreadRng);

/// The byte at position `idx` of the alphanumeric stream that the seed
/// determines; what `sample_alnum` returns, position by position.
pub uninterp spec fn alnum_byte(seed: u64, idx: int) -> u8;

/// An ASCII digit or letter: the only bytes the alphanumeric stream yields.
pub open spec fn is_ascii_alnum(b: u8) -> bool {
    (48 <= b <= 57) || (65 <= b <= 90) || (97 <= b <= 122)
}

/// Relies on `rand::Rng::random_range` over the inclusive range `lo..=hi`:
/// it returns a value of that range, and panics only when the range is
/// empty, which the precondition rules out.
#[verifier::external_body]
pub(crate) fn rand_between_u16(rng: &mut rand::rngs::ThreadRng, lo: u16, hi: u16) -> (r: u16)
    requires
        lo <= hi,
    ensures
        lo <= r <= hi,
{
    rng.random_range(lo..=hi)
}

/// Relies on `rand::Rng::random` for `u64`: a draw from the full range of
/// `u64`. Nothing can be promised of the value.
#[verifier::external_body]
pub(crate) fn rand_seed(rng: &mut rand::rngs::ThreadRng) -> (r: u64) {
    rng.random()
}

/// Relies on `rand::rngs::SmallRng::seed_from_u64` and
/// `rand::Rng::sample_iter` with the `Alphanumeric` distribution: the
/// stream is a pure function of the seed, and every byte it yields is an
/// ASCII digit or letter.
#[verifier::external_body]
pub(crate) fn sample_alnum(seed: u64, n: usize) -> (r: Vec<u8>)
    ensures
        r@.len() == n,
        forall|i: int| 0 <= i < n ==> r@[i] == alnum_byte(seed, i),
        forall|i: int| 0 <= i < n ==> is_ascii_alnum(r@[i]),
{
    let rng = rand::rngs::SmallRng::seed_from_u64(seed);
    rng.sample_iter(rand::distr::Alphanumeric).take(n).collect()
}

} // verus!
