use vstd::prelude::*;

verus! {

/// Turns CPU cycles into whole steps of a channel's period, carrying the
/// remainder from one call to the next.
#[derive(Debug)]
pub struct Period {
    accumulator: usize,
}

impl Period {
    /// The cycles carried over that do not yet make a whole step.
    pub closed spec fn spec_accumulator(&self) -> usize {
        self.accumulator
    }

    pub fn new() -> (r: Self)
        ensures
            r.spec_accumulator() == 0,
    {
        Period { accumulator: 0 }
    }

    // Accumulate `cycles` and return how many whole `period_cycles` long steps elapsed, keeping the remainder for the next call.
    // The caller owns the channel-specific formula that produces `period_cycles`.
    pub fn step(&mut self, cycles: usize, period_cycles: usize) -> (steps: usize)
        requires
            period_cycles > 0,
            old(self).spec_accumulator() + cycles <= usize::MAX,
        ensures
            steps == (old(self).spec_accumulator() + cycles) / (period_cycles as int),
            final(self).spec_accumulator() == (old(self).spec_accumulator() + cycles) % (period_cycles as int),
    {
        self.accumulator += cycles;
        let steps = self.accumulator / period_cycles;
        self.accumulator %= period_cycles;
        steps
    }

    pub fn trigger(&mut self)
        ensures
            final(self).spec_accumulator() == 0,
    {
        self.accumulator = 0;
    }
}

/// No cycle is lost or made up: the carried cycles plus the new ones are the
/// whole steps taken times the period plus what is carried on, which is less
/// than one period.
pub proof fn lemma_period_conserves_cycles(before: usize, cycles: usize, period_cycles: usize)
    requires
        period_cycles > 0,
    ensures
        before + cycles == (period_cycles as int) * ((before + cycles) / (period_cycles as int)) + (
        before + cycles) % (period_cycles as int),
        0 <= (before + cycles) % (period_cycles as int) < period_cycles,
{
    vstd::arithmetic::div_mod::lemma_fundamental_div_mod(before + cycles, period_cycles as int);
}

/// Two calls of `step` with the same period take as many steps, and carry
/// the same remainder, as one call with their cycles together.
pub proof fn lemma_period_steps_add(before: usize, c1: usize, c2: usize, period_cycles: usize)
    requires
        period_cycles > 0,
    ensures
        ({
            let p = period_cycles as int;
            let carried = (before + c1) % p;
            &&& (before + c1) / p + (carried + c2) / p == (before + c1 + c2) / p
            &&& (carried + c2) % p == (before + c1 + c2) % p
        }),
{
    let p = period_cycles as int;
    let q = (before + c1) / p;
    let x = (before + c1) % p + c2;
    vstd::arithmetic::div_mod::lemma_fundamental_div_mod(before + c1, p);
    assert(before + c1 + c2 == p * q + x);
    vstd::arithmetic::div_mod::lemma_hoist_over_denominator(x, q, period_cycles as nat);
    assert(x + q * p == p * q + x) by (nonlinear_arith);
    vstd::arithmetic::div_mod::lemma_mod_multiples_vanish(q, x, p);
}

} // verus!
