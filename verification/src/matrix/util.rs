//! Randomness helpers: thin trusted wrappers over the `rand` crate, the
//! restricted glyph alphabet with its sampler, and a simple countdown timer.

use vstd::prelude::*;

use rand::Rng;
use rand::RngCore;

use crate::animation::sat_add;
use crate::animation::sat_add_ms;

verus! {

/// Relies on rand's `rng()` and `Rng::random_range` over `lo..=hi`: it panics
/// on an empty range and returns a uniform value of the range.
#[verifier::external_body]
pub(crate) fn random_i32_inclusive(lo: i32, hi: i32) -> (r: i32)
    requires
        lo <= hi,
    ensures
        lo <= r <= hi,
{
    let mut rng = rand::rng();
    rng.random_range(lo..=hi)
}

/// Relies on rand's `rng()` and `Rng::random_range` over `lo..=hi`: it panics
/// on an empty range and returns a uniform value of the range.
#[verifier::external_body]
pub(crate) fn random_u64_inclusive(lo: u64, hi: u64) -> (r: u64)
    requires
        lo <= hi,
    ensures
        lo <= r <= hi,
{
    let mut rng = rand::rng();
    rng.random_range(lo..=hi)
}

/// Relies on rand's `rng()` and `RngCore::next_u32`: one word of randomness,
/// of which nothing is promised.
#[verifier::external_body]
pub(crate) fn random_u32_word() -> u32 {
    let mut rng = rand::rng();
    rng.next_u32()
}

/// A random duration between `min_ms` and `max_ms` milliseconds, inclusive.
pub fn random_duration(min_ms: u64, max_ms: u64) -> (r: u64)
    requires
        min_ms <= max_ms,
    ensures
        min_ms <= r <= max_ms,
{
    let offset = random_u64_inclusive(0, max_ms - min_ms);
    min_ms + offset
}

/// The restricted alphabet the rain draws its glyphs from: not the full
/// alphanumeric range, only digits (without 6) and a handful of letters.
pub open spec fn matrix_alphabet() -> Seq<char> {
    seq![
        'E', 'I', 'O', 'P', 'Q', 'R', 'T', 'U', 'W', 'Y',
        '0', '1', '2', '3', '4', '5', '7', '8', '9',
    ]
}

/// Whether `c` belongs to the glyph alphabet.
pub open spec fn is_matrix_glyph(c: char) -> bool {
    matrix_alphabet().contains(c)
}

/// The alphabet entry at `i`.
pub fn alphabet_char(i: usize) -> (c: char)
    requires
        i < matrix_alphabet().len(),
    ensures
        c == matrix_alphabet()[i as int],
        is_matrix_glyph(c),
{
    let c = match i {
        0 => 'E',
        1 => 'I',
        2 => 'O',
        3 => 'P',
        4 => 'Q',
        5 => 'R',
        6 => 'T',
        7 => 'U',
        8 => 'W',
        9 => 'Y',
        10 => '0',
        11 => '1',
        12 => '2',
        13 => '3',
        14 => '4',
        15 => '5',
        16 => '7',
        17 => '8',
        _ => '9',
    };
    proof {
        assert(c == matrix_alphabet()[i as int]);
        assert(matrix_alphabet().contains(c));
    }
    c
}

/// Uniform sampling over the glyph alphabet.
#[derive(Clone, Copy, PartialEq, Eq, Structural, Debug, Default)]
pub struct AlphanumericMatrix;

impl AlphanumericMatrix {
    /// Draws one glyph, uniformly, by rejection sampling: take the top six
    /// bits of a random word and accept them as an index when they fall
    /// within the alphabet. The retry budget is far beyond what rejection
    /// could plausibly exhaust; if it ever is exhausted, the last word is
    /// reduced modulo the alphabet size instead, so sampling always
    /// terminates.
    pub fn sample(&self) -> (c: char)
        ensures
            is_matrix_glyph(c),
    {
        let mut attempts: u32 = 64;
        while attempts > 0
            decreases attempts,
        {
            let var = random_u32_word() >> 26;
            if var < 19 {
                return alphabet_char(var as usize);
            }
            attempts = attempts - 1;
        }
        alphabet_char((random_u32_word() % 19) as usize)
    }
}

/// A countdown: how many milliseconds have elapsed against a target.
#[derive(Clone, Copy, PartialEq, Eq, Structural, Debug)]
pub struct Timer {
    pub elapsed_ms: u64,
    pub end_ms: u64,
}

impl Timer {
    pub fn new(end_ms: u64) -> (t: Timer)
        ensures
            t == (Timer { elapsed_ms: 0, end_ms }),
    {
        Timer { elapsed_ms: 0, end_ms }
    }

    pub fn advance(&mut self, delta_ms: u64)
        ensures
            final(self).elapsed_ms == sat_add(old(self).elapsed_ms, delta_ms),
            final(self).end_ms == old(self).end_ms,
    {
        self.elapsed_ms = sat_add_ms(self.elapsed_ms, delta_ms);
    }

    /// Whether the target has been reached.
    pub fn expired(&self) -> (b: bool)
        ensures
            b == (self.elapsed_ms >= self.end_ms),
    {
        self.elapsed_ms >= self.end_ms
    }

    /// Whether the target has been strictly exceeded.
    pub fn exceeded(&self) -> (b: bool)
        ensures
            b == (self.elapsed_ms > self.end_ms),
    {
        self.elapsed_ms > self.end_ms
    }

    pub fn reset(&mut self)
        ensures
            final(self).elapsed_ms == 0,
            final(self).end_ms == old(self).end_ms,
    {
        self.elapsed_ms = 0;
    }
}

} // verus!
