//! Pseudo-random noise generator.
use vstd::prelude::*;
use super::channel::{SAMPLE_MIN, SAMPLE_MAX};

verus! {

pub const LFSR_SEED: u16 = 0x7FFF;

/// Linear feedback shift register noise.
pub struct NoiseGenerator {
    pub lfsr_counter: u16,
}

impl NoiseGenerator {
    pub fn new() -> (r: Self)
        ensures
            r.lfsr_counter == LFSR_SEED,
    {
        NoiseGenerator { lfsr_counter: LFSR_SEED }
    }

    pub fn reset(&mut self)
        ensures
            final(self).lfsr_counter == LFSR_SEED,
    {
        self.lfsr_counter = LFSR_SEED;
    }

    /// Shift the register: when the bit shifted out is set, the register is
    /// XORed with 0x6000 and the sample is low, else it is high.
    pub fn generate_sample(&mut self) -> (r: i16)
        ensures
            old(self).lfsr_counter % 2 == 1 ==> r == SAMPLE_MIN
                && final(self).lfsr_counter == (old(self).lfsr_counter / 2) ^ 0x6000,
            old(self).lfsr_counter % 2 == 0 ==> r == SAMPLE_MAX
                && final(self).lfsr_counter == old(self).lfsr_counter / 2,
    {
        let low_bit = self.lfsr_counter % 2;
        self.lfsr_counter = self.lfsr_counter / 2;
        if low_bit == 1 {
            self.lfsr_counter = self.lfsr_counter ^ 0x6000;
            SAMPLE_MIN
        } else {
            SAMPLE_MAX
        }
    }
}

} // verus!
