//! The seeded generator that fills a grid: `nanorand`'s `Pcg64`, as far as this library uses it.
//!
//! Nothing in this file is proved. It says what the library takes on trust from `nanorand`.

use nanorand::Pcg64;
use nanorand::Rng;
use vstd::endian::endianness;
use vstd::prelude::*;

verus! {

/// `nanorand::Pcg64`, carried through verified code as an opaque value.
#[verifier::external_type_specification]
#[verifier::external_body]
pub struct ExPcg64(Pcg64);

/// The three 128-bit words that a `Pcg64` holds, in the order in which the struct declares
/// them: `seed`, `state`, `inc`. They are all there is to a generator.
pub uninterp spec fn pcg64_words(rng: Pcg64) -> Seq<u128>;

/// What `Rng::generate_range(low..high)` does with a generator that holds `words`: the `u8` it
/// returns, and the words that the generator holds afterwards.
///
/// `nanorand` lays the generator's 64-bit output out in the byte order of the hardware and
/// draws from the first byte, so the byte order is an argument: `little_endian` says whether
/// the least significant byte comes first.
pub uninterp spec fn pcg64_range(words: Seq<u128>, low: u8, high: u8, little_endian: bool) -> (
    u8,
    Seq<u128>,
);

/// The words of a generator fresh from `seed`.
pub open spec fn pcg64_seeded(seed: u128) -> Seq<u128> {
    seq![seed, 0u128, 0u128]
}

/// What a draw from `low..high` does on the hardware that runs the library, whose byte order
/// is `vstd`'s `endianness()`.
pub open spec fn pcg64_draw(words: Seq<u128>, low: u8, high: u8) -> (u8, Seq<u128>) {
    pcg64_range(words, low, high, endianness() is Little)
}

/// `Pcg64::new_seed` stores the seed and zeroes the other two words.
pub assume_specification[ Pcg64::new_seed ](seed: u128) -> (rng: Pcg64)
    ensures
        pcg64_words(rng) == pcg64_seeded(seed),
;

/// `Rng::generate_range` on a `Pcg64`, for the half-open range `low..high` of `u8`.
///
/// The draw and the generator's new words are a function of its old words, the range and the
/// byte order of the hardware, and the draw lies in the range. `nanorand` rejects a raw value
/// and draws again while it falls under `256 % (high - low)`; the contract is for spans that
/// divide 256, where that threshold is 0 and exactly one raw value is taken.
#[verifier::external_body]
pub(crate) fn pcg64_generate_range(rng: &mut Pcg64, low: u8, high: u8) -> (drawn: u8)
    requires
        low < high,
        256int % (high - low) == 0,
    ensures
        (drawn, pcg64_words(*final(rng))) == pcg64_range(
            pcg64_words(*old(rng)),
            low,
            high,
            endianness() is Little,
        ),
        low <= drawn < high,
{
    rng.generate_range(low..high)
}

} // verus!
