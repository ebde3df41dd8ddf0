//! A linear congruential generator.
//!
//! Small, fast, and reproducible across platforms and Rust versions, which
//! `rand` deliberately is not.
use vstd::prelude::*;

verus! {

pub const MULTIPLIER: u64 = 6_364_136_223_846_793_005;

pub const INCREMENT: u64 = 1_442_695_040_888_963_407;

/// The state that follows `x`.
pub open spec fn successor(x: u64) -> u64 {
    affine(x, MULTIPLIER, INCREMENT)
}

/// `x * a + c` modulo two to the 64th.
pub open spec fn affine(x: u64, a: u64, c: u64) -> u64 {
    ((x * a + c) % 0x1_0000_0000_0000_0000) as u64
}

/// `x * a + c` modulo two to the 64th.
pub fn affine_step(x: u64, a: u64, c: u64) -> (r: u64)
    ensures
        r == affine(x, a, c),
{
    proof {
        let m = 0x1_0000_0000_0000_0000int;
        let p = x * a;
        assert((p % m + c) % m == (p + c) % m) by {
            vstd::arithmetic::div_mod::lemma_add_mod_noop(p, c as int, m);
            vstd::arithmetic::div_mod::lemma_mod_twice(p, m);
            vstd::arithmetic::div_mod::lemma_add_mod_noop(p % m, c as int, m);
        }
        assert(x as nat * a as nat == p);
    }
    x.wrapping_mul(a).wrapping_add(c)
}

/// The state that follows `x`.
pub fn step(x: u64) -> (r: u64)
    ensures
        r == successor(x),
{
    affine_step(x, MULTIPLIER, INCREMENT)
}

} // verus!
