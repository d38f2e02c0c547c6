//! The sampler: a deterministic pseudo-random stream of fixed-point
//! deviates in `[0, 1)`, used to jitter sample positions within a pixel
//! and to pick scatter directions.
//!
//! The generator is a 64-bit xorshift. One instance is consumed
//! sequentially across a whole render, so a render is a pure function of
//! the seed; the stream's state before and after every draw is part of
//! each contract, which lets the renderer's model thread it exactly.

use vstd::prelude::*;
use crate::fp::{Fx, FP_ONE};

verus! {

/// The xorshift successor of a generator state.
pub open spec fn spec_rng_step(s: u64) -> u64 {
    let a = s ^ (s << 13);
    let b = a ^ (a >> 7);
    b ^ (b << 17)
}

/// The deviate in `[0, 1)` drawn by one step from state `s`.
pub open spec fn spec_rng_unit(s: u64) -> Fx {
    (spec_rng_step(s) % (FP_ONE as u64)) as i64
}

/// The initial state for a seed (a zero seed is replaced, since zero is
/// a fixed point of xorshift).
pub open spec fn spec_rng_init(seed: u64) -> u64 {
    if seed == 0 {
        0x9e3779b97f4a7c15u64
    } else {
        seed
    }
}

/// A deterministic source of uniform fixed-point deviates in `[0, 1)`.
#[derive(Clone, Copy, Debug, PartialEq, Eq, Structural)]
pub struct Sampler {
    pub state: u64,
}

impl Sampler {
    /// Build a sampler from a seed.
    pub fn new(seed: u64) -> (s: Sampler)
        ensures
            s.state == spec_rng_init(seed),
    {
        if seed == 0 {
            Sampler { state: 0x9e3779b97f4a7c15u64 }
        } else {
            Sampler { state: seed }
        }
    }

    /// Draw the next deviate in `[0, 1)` and advance the stream.
    pub fn next_unit(&mut self) -> (r: Fx)
        ensures
            final(self).state == spec_rng_step(old(self).state),
            r == spec_rng_unit(old(self).state),
            0 <= r < FP_ONE,
    {
        let s = self.state;
        let a = s ^ (s << 13u64);
        let b = a ^ (a >> 7u64);
        let c = b ^ (b << 17u64);
        self.state = c;
        (c % (FP_ONE as u64)) as i64
    }
}

} // verus!
