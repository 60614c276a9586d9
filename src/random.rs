//! The uniform random source that drives composition.
use vstd::prelude::*;
use rand::RngCore;

verus! {

#[verifier::external_type_specification]
#[verifier::external_body]
pub struct ExStdRng(rand::rngs::StdRng);

/// Relies on rand's `RngCore::next_u32` for `StdRng`: it hands out the next
/// 32-bit word of the generator's stream. Any word may come back.
#[verifier::external_body]
fn next_word(rng: &mut rand::rngs::StdRng) -> (r: u32) {
    rng.next_u32()
}

/// Number of distinct uniform draws: a draw `k` stands for the value `k / DRAW_RANGE`.
pub const DRAW_RANGE: u32 = 16777216;

/// The uniform draw in [0, 1) that a word gives, as a count of `1 / DRAW_RANGE`:
/// its 24 most significant bits.
pub open spec fn draw_of(word: u32) -> int {
    word as int / 256
}

/// The uniform draw carried by `word`.
pub fn unit_draw(word: u32) -> (r: u32)
    ensures
        r == draw_of(word),
        r < DRAW_RANGE,
{
    let r: u32 = word >> 8u32;
    assert(word >> 8u32 == word / 256) by (bit_vector);
    r
}

/// Draws `count` words from `rng`, in the order the generator yields them.
pub fn draw_words(rng: &mut rand::rngs::StdRng, count: usize) -> (r: Vec<u32>)
    ensures
        r@.len() == count,
{
    let mut words: Vec<u32> = Vec::with_capacity(count);
    let mut i: usize = 0;
    while i < count
        invariant
            i <= count,
            words@.len() == i,
        decreases count - i,
    {
        words.push(next_word(rng));
        i = i + 1;
    }
    words
}

} // verus!
