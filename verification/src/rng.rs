use vstd::prelude::*;
use crate::math::Rational;

verus! {

/// The multiplier of the Lehmer sequence.
pub const LEHMER_MUL: u32 = 48271;

/// The modulus of the Lehmer sequence, the Mersenne prime `2^31 - 1`.
pub const LEHMER_MOD: u32 = 0x7fff_ffff;

/// A Lehmer pseudo-random generator with explicit, owned state: each step
/// multiplies the state by `LEHMER_MUL` modulo `LEHMER_MOD`. It replaces
/// process-wide mutable state with a value seeded at construction.
pub struct Lehmer {
    state: u32,
}

impl Lehmer {
    /// The current state of the sequence.
    pub closed spec fn state_val(&self) -> int {
        self.state as int
    }

    /// The state always stays below the modulus.
    pub open spec fn wf(&self) -> bool {
        self.state_val() < LEHMER_MOD
    }

    /// A generator seeded with `seed` reduced into range.
    pub fn new(seed: u32) -> (r: Lehmer)
        ensures
            r.wf(),
            r.state_val() == seed as int % (LEHMER_MOD as int),
    {
        Lehmer { state: seed % LEHMER_MOD }
    }

    /// Steps the sequence once and returns the new state.
    pub fn next_state(&mut self) -> (r: u32)
        requires
            old(self).wf(),
        ensures
            final(self).wf(),
            final(self).state_val() == (old(self).state_val() * LEHMER_MUL) % (LEHMER_MOD as int),
            r as int == final(self).state_val(),
    {
        proof {
            let s = self.state as int;
            assert(s * LEHMER_MUL < 0x8000_0000_0000) by (nonlinear_arith)
                requires
                    s < 0x8000_0000,
                    0 <= s,
                    LEHMER_MUL == 48271,
            ;
        }
        let next = ((self.state as u64 * LEHMER_MUL as u64) % LEHMER_MOD as u64) as u32;
        self.state = next;
        next
    }

    /// Steps the sequence once and returns it as an exact fraction of the
    /// unit interval, the state over the modulus.
    pub fn next_unit(&mut self) -> (r: Rational)
        requires
            old(self).wf(),
        ensures
            final(self).wf(),
            final(self).state_val() == (old(self).state_val() * LEHMER_MUL) % (LEHMER_MOD as int),
            r.num == final(self).state_val(),
            r.den == LEHMER_MOD,
            r.wf(),
    {
        let state = self.next_state();
        Rational { num: state as i64, den: LEHMER_MOD as i64 }
    }
}

} // verus!
