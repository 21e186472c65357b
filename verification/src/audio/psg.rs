//! Square wave generator.
use vstd::prelude::*;
use super::channel::{SAMPLE_MIN, SAMPLE_MAX};

verus! {

/// Square wave with a duty of `duty_hi` eighths high.
pub struct SquareGenerator {
    pub duty_hi: u8,
    pub counter: u8,
}

impl SquareGenerator {
    pub fn new() -> (r: Self)
        ensures
            r.duty_hi == 1,
            r.counter == 0,
    {
        SquareGenerator { duty_hi: 1, counter: 0 }
    }

    /// Reset the counter. Pass in the wave duty bits from the sound control
    /// register.
    pub fn reset(&mut self, duty: u8)
        requires
            duty < 255,
        ensures
            final(self).duty_hi == duty + 1,
            final(self).counter == 0,
    {
        self.duty_hi = duty + 1;
        self.counter = 0;
    }

    /// High for the first `duty_hi` steps of each eight.
    pub fn generate_sample(&mut self) -> (r: i16)
        requires
            old(self).counter < 255,
        ensures
            r == (if old(self).counter < old(self).duty_hi { SAMPLE_MAX } else { SAMPLE_MIN }),
            final(self).counter == (old(self).counter + 1) % 8,
            final(self).duty_hi == old(self).duty_hi,
            (r, *final(self)) == square_step(*old(self)),
    {
        let out = if self.counter < self.duty_hi {
            SAMPLE_MAX
        } else {
            SAMPLE_MIN
        };
        self.counter = (self.counter + 1) % 8;
        out
    }
}


/// One sample of the square wave and the generator after it.
pub open spec fn square_step(g: SquareGenerator) -> (i16, SquareGenerator) {
    (
        if g.counter < g.duty_hi { SAMPLE_MAX } else { SAMPLE_MIN },
        SquareGenerator { duty_hi: g.duty_hi, counter: ((g.counter + 1) % 8) as u8 },
    )
}

/// The generator after `m` samples.
pub open spec fn square_after(g: SquareGenerator, m: nat) -> SquareGenerator
    decreases m,
{
    if m == 0 {
        g
    } else {
        square_step(square_after(g, (m - 1) as nat)).1
    }
}

/// After a reset with duty `duty` (0 to 7), the wave repeats every eight
/// samples: `duty + 1` high, then `7 - duty` low. Sample `m` (from 0) is
/// high just when `m % 8 <= duty`.
pub proof fn lemma_square_duty(g: SquareGenerator, duty: u8, m: nat)
    requires
        g.counter == 0,
        g.duty_hi == duty + 1,
        duty <= 7,
    ensures
        square_after(g, m).counter == m % 8,
        square_after(g, m).duty_hi == g.duty_hi,
        square_step(square_after(g, m)).0 == (if m % 8 <= duty { SAMPLE_MAX } else { SAMPLE_MIN }),
    decreases m,
{
    if m > 0 {
        lemma_square_duty(g, duty, (m - 1) as nat);
    }
}

} // verus!
