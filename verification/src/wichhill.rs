//! The integer part of the Wichmann-Hill generator: three small
//! multiplicative congruential generators that run side by side.
//!
//! The value of a draw is the fractional part of the sum of the three states,
//! each divided by its modulus.

use vstd::prelude::*;
use crate::common::spec_u32_or_1;
use crate::common::u32_or_1;
use crate::random::iterate;

verus! {

/// The three states that follow `seed`: each multiplied by its multiplier and
/// reduced by its modulus.
pub open spec fn spec_wichhill(seed: (u32, u32, u32)) -> (u32, u32, u32) {
    (
        ((seed.0 * 171) % 30269) as u32,
        ((seed.1 * 172) % 30307) as u32,
        ((seed.2 * 170) % 30323) as u32,
    )
}

/// A product with `a` is a multiple of the modulus `m` only where the other
/// factor is one, given that `a` times `inv` is one more than `k` times `m`.
pub proof fn lemma_unit_keeps_nonzero(s: int, a: int, m: int, inv: int, k: int)
    requires
        m > 0,
        a * inv == 1 + m * k,
        (s * a) % m == 0,
    ensures
        s % m == 0,
{
    let q = (s * a) / m;
    vstd::arithmetic::div_mod::lemma_fundamental_div_mod(s * a, m);
    assert(s == m * (inv * q - k * s)) by (nonlinear_arith)
        requires
            a * inv == 1 + m * k,
            s * a == m * q,
    ;
    vstd::arithmetic::div_mod::lemma_mod_multiples_basic(inv * q - k * s, m);
    assert(m * (inv * q - k * s) == (inv * q - k * s) * m) by (nonlinear_arith);
}

/// The Wichmann-Hill generator.
pub struct WichHill {
    /// The three states.
    pub seed: (u32, u32, u32),
}

impl Clone for WichHill {
    fn clone(&self) -> (r: Self)
        ensures
            r == *self,
    {
        Self { seed: (self.seed.0, self.seed.1, self.seed.2) }
    }
}

impl WichHill {
    /// Whether a step from this state stays within 32 bits. It does after
    /// any step, and for seeds up to 24 million.
    pub open spec fn valid(&self) -> bool {
        self.seed.0 * 171 <= u32::MAX && self.seed.1 * 172 <= u32::MAX && self.seed.2 * 170
            <= u32::MAX
    }

    /// Whether one of the three states is stuck at zero: it is a multiple of
    /// its modulus, and so are all the states that follow it.
    pub open spec fn degenerate(&self) -> bool {
        self.seed.0 % 30269 == 0 || self.seed.1 % 30307 == 0 || self.seed.2 % 30323 == 0
    }

    /// The three states that `step` returns from this state, and the state after it.
    pub open spec fn spec_step(&self) -> ((u32, u32, u32), Self) {
        (spec_wichhill(self.seed), WichHill { seed: spec_wichhill(self.seed) })
    }

    /// Construct a new `WichHill` with the seeds as they are. All three
    /// should lie in `1..=30000`; a seed of 0 stays 0.
    pub fn new_raw(seed: [u32; 3]) -> (r: Self)
        ensures
            r.seed == (seed@[0], seed@[1], seed@[2]),
    {
        Self { seed: (seed[0], seed[1], seed[2]) }
    }

    /// Construct a new `WichHill`, with each seed that is 0 replaced by 1.
    pub fn new(seed: [u32; 3]) -> (r: Self)
        ensures
            r.seed == (spec_u32_or_1(seed@[0]), spec_u32_or_1(seed@[1]), spec_u32_or_1(seed@[2])),
            r.seed.0 != 0 && r.seed.1 != 0 && r.seed.2 != 0,
            seed@[0] < 30269 && seed@[1] < 30307 && seed@[2] < 30323 ==> !r.degenerate(),
    {
        let mut seed: [u32; 3] = seed;
        seed[0] = u32_or_1(seed[0]);
        seed[1] = u32_or_1(seed[1]);
        seed[2] = u32_or_1(seed[2]);
        Self::new_raw(seed)
    }

    /// Make one step and return the three new states, each below its modulus.
    pub fn step(&mut self) -> (r: (u32, u32, u32))
        requires
            old(self).valid(),
        ensures
            r == spec_wichhill(old(self).seed),
            final(self).seed == r,
            r.0 < 30269 && r.1 < 30307 && r.2 < 30323,
            final(self).valid(),
            final(self).degenerate() == old(self).degenerate(),
    {
        proof {
            Self::lemma_step_degenerate(*old(self));
        }
        self.seed.0 = (self.seed.0 * 171) % 30269;
        self.seed.1 = (self.seed.1 * 172) % 30307;
        self.seed.2 = (self.seed.2 * 170) % 30323;
        (self.seed.0, self.seed.1, self.seed.2)
    }

    /// A step takes a state that is stuck to one that is, and no other.
    pub proof fn lemma_step_degenerate(s: Self)
        ensures
            s.spec_step().1.degenerate() == s.degenerate(),
    {
        let n = spec_wichhill(s.seed);
        assert(n.0 % 30269 == 0 <==> s.seed.0 % 30269 == 0) by {
            if (s.seed.0 * 171) % 30269 == 0 {
                lemma_unit_keeps_nonzero(s.seed.0 as int, 171, 30269, 15046, 85);
            }
            if s.seed.0 % 30269 == 0 {
                vstd::arithmetic::div_mod::lemma_mul_mod_noop_left(s.seed.0 as int, 171, 30269);
            }
        }
        assert(n.1 % 30307 == 0 <==> s.seed.1 % 30307 == 0) by {
            if (s.seed.1 * 172) % 30307 == 0 {
                lemma_unit_keeps_nonzero(s.seed.1 as int, 172, 30307, 19911, 113);
            }
            if s.seed.1 % 30307 == 0 {
                vstd::arithmetic::div_mod::lemma_mul_mod_noop_left(s.seed.1 as int, 172, 30307);
            }
        }
        assert(n.2 % 30323 == 0 <==> s.seed.2 % 30323 == 0) by {
            if (s.seed.2 * 170) % 30323 == 0 {
                lemma_unit_keeps_nonzero(s.seed.2 as int, 170, 30323, 25507, 143);
            }
            if s.seed.2 % 30323 == 0 {
                vstd::arithmetic::div_mod::lemma_mul_mod_noop_left(s.seed.2 as int, 170, 30323);
            }
        }
    }

    /// A generator none of whose states is stuck never gets one stuck, and
    /// one that has a stuck state keeps it.
    pub proof fn law_degenerate_forever(s: Self, n: nat)
        ensures
            iterate(|g: Self| g.spec_step(), s, n).degenerate() == s.degenerate(),
        decreases n,
    {
        if n > 0 {
            Self::law_degenerate_forever(s, (n - 1) as nat);
            Self::lemma_step_degenerate(iterate(|g: Self| g.spec_step(), s, (n - 1) as nat));
        }
    }
}

} // verus!
