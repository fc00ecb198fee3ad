//! The injected randomness capability. The engine never reaches for a
//! hidden global generator: every function that needs chance takes a
//! `RandSource`, which can be seeded for reproducible runs or fed from
//! the operating system for real ones.

use vstd::prelude::*;

use rand::Rng;
use rand::SeedableRng;

verus! {

#[verifier::external_type_specification]
#[verifier::external_body]
pub struct ExStdRng(rand::rngs::StdRng);

/// Relies on rand's `SeedableRng::seed_from_u64`: builds a generator
/// whose output is determined by the seed.
#[verifier::external_body]
fn seed_std_rng(seed: u64) -> rand::rngs::StdRng {
    rand::rngs::StdRng::seed_from_u64(seed)
}

/// Relies on rand's `SeedableRng::from_entropy`: builds a generator
/// seeded by the operating system.
#[verifier::external_body]
fn entropy_std_rng() -> rand::rngs::StdRng {
    rand::rngs::StdRng::from_entropy()
}

/// Relies on rand's `Rng::gen_range` over `0..n`: the sample is below
/// `n`; the range must not be empty, or the call would panic.
#[verifier::external_body]
fn gen_index(rng: &mut rand::rngs::StdRng, n: usize) -> (r: usize)
    requires
        n > 0,
    ensures
        r < n,
{
    rng.gen_range(0..n)
}

/// Relies on rand's `Rng::gen_range` over `lo..=hi`: the sample lies in
/// the range; the range must not be empty, or the call would panic.
#[verifier::external_body]
fn gen_i16_between(rng: &mut rand::rngs::StdRng, lo: i16, hi: i16) -> (r: i16)
    requires
        lo <= hi,
    ensures
        lo <= r <= hi,
{
    rng.gen_range(lo..=hi)
}

/// Relies on rand's `Rng::gen_range` over `lo..=hi`: the sample lies in
/// the range; the range must not be empty, or the call would panic.
#[verifier::external_body]
fn gen_usize_between(rng: &mut rand::rngs::StdRng, lo: usize, hi: usize) -> (r: usize)
    requires
        lo <= hi,
    ensures
        lo <= r <= hi,
{
    rng.gen_range(lo..=hi)
}

/// A source of random values, wrapping a seedable generator so that a
/// run can be replayed exactly from its seed.
pub struct RandSource {
    rng: rand::rngs::StdRng,
}

impl RandSource {
    /// A source whose draws are determined by the seed: two sources
    /// built from the same seed hand out the same values in the same
    /// order.
    pub fn from_seed(seed: u64) -> RandSource {
        RandSource { rng: seed_std_rng(seed) }
    }

    /// A source seeded by the operating system, for real runs.
    pub fn from_entropy() -> RandSource {
        RandSource { rng: entropy_std_rng() }
    }

    /// A sample below `n`.
    pub fn index_below(&mut self, n: usize) -> (r: usize)
        requires
            n > 0,
        ensures
            r < n,
    {
        gen_index(&mut self.rng, n)
    }

    /// A sample between `lo` and `hi`, both inclusive.
    pub fn i16_between(&mut self, lo: i16, hi: i16) -> (r: i16)
        requires
            lo <= hi,
        ensures
            lo <= r <= hi,
    {
        gen_i16_between(&mut self.rng, lo, hi)
    }

    /// A sample between `lo` and `hi`, both inclusive.
    pub fn usize_between(&mut self, lo: usize, hi: usize) -> (r: usize)
        requires
            lo <= hi,
        ensures
            lo <= r <= hi,
    {
        gen_usize_between(&mut self.rng, lo, hi)
    }
}

/// One glyph drawn uniformly from the candidate set.
pub fn rand_char(candidates: &Vec<char>, rng: &mut RandSource) -> (r: char)
    requires
        candidates@.len() > 0,
    ensures
        candidates@.contains(r),
{
    let i = rng.index_below(candidates.len());
    let r = candidates[i];
    proof {
        assert(candidates@[i as int] == r);
    }
    r
}

/// A fresh line of `length` glyphs, each drawn uniformly from the
/// candidate set.
pub fn rand_line(length: u32, candidates: &Vec<char>, rng: &mut RandSource) -> (r: Vec<char>)
    requires
        candidates@.len() > 0,
    ensures
        r@.len() == length,
        forall|i: int| 0 <= i < r@.len() ==> candidates@.contains(#[trigger] r@[i]),
{
    let mut s: Vec<char> = Vec::new();
    let mut k: u32 = 0;
    while k < length
        invariant
            k <= length,
            s@.len() == k,
            candidates@.len() > 0,
            forall|i: int| 0 <= i < s@.len() ==> candidates@.contains(#[trigger] s@[i]),
        decreases length - k,
    {
        let c = rand_char(candidates, rng);
        s.push(c);
        k = k + 1;
    }
    s
}

} // verus!
