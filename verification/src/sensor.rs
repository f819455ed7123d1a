//! A stand-in for the sensor where there is no hardware.
//!
//! The stand-in reports a fixed temperature and a pressure that wanders
//! through the interval from zero up to, not including, one. Its readings
//! depend on the seed alone, so a run can be repeated.

use vstd::prelude::*;

verus! {

/// Multiplier of the generator.
pub const SYNTHETIC_MULTIPLIER: u64 = 6364136223846793005;

/// Increment of the generator.
pub const SYNTHETIC_INCREMENT: u64 = 1442695040888963407;

/// The pressure is its numerator over this: two to the power of 53.
pub const SYNTHETIC_SCALE: u64 = 0x20_0000_0000_0000;

/// The fixed temperature, 70 degrees, as the bit pattern of a double.
pub const SYNTHETIC_TEMPERATURE: u64 = 0x4051_8000_0000_0000;

/// The generator's state after `state`: one step of a linear congruential
/// sequence modulo two to the power of 64, the product reduced first and
/// then the sum.
pub open spec fn next_state(state: u64) -> u64 {
    (((state as nat * SYNTHETIC_MULTIPLIER as nat) % 0x1_0000_0000_0000_0000
        + SYNTHETIC_INCREMENT) % 0x1_0000_0000_0000_0000) as u64
}

/// The numerator that a state stands for: its upper 53 bits.
pub open spec fn numerator_of(state: u64) -> u64 {
    state >> 11
}

/// One reading of the stand-in: the temperature as the bit pattern of a
/// double, and the pressure as a numerator over [`SYNTHETIC_SCALE`].
#[derive(Debug, Clone, Copy, PartialEq, Eq, Structural)]
pub struct SyntheticReading {
    pub temperature: u64,
    pub pressure_numerator: u64,
}

/// The stand-in sensor.
pub struct SyntheticSensor {
    state: u64,
}

impl View for SyntheticSensor {
    type V = u64;

    closed spec fn view(&self) -> u64 {
        self.state
    }
}

impl SyntheticSensor {
    /// A stand-in that starts from `seed`.
    pub fn new(seed: u64) -> (r: Self)
        ensures
            r@ == seed,
    {
        SyntheticSensor { state: seed }
    }

    /// Takes the next reading.
    pub fn read(&mut self) -> (r: SyntheticReading)
        ensures
            final(self)@ == next_state(old(self)@),
            r.temperature == SYNTHETIC_TEMPERATURE,
            r.pressure_numerator == numerator_of(final(self)@),
            r.pressure_numerator < SYNTHETIC_SCALE,
    {
        let product = self.state.wrapping_mul(SYNTHETIC_MULTIPLIER);
        let state = product.wrapping_add(SYNTHETIC_INCREMENT);
        self.state = state;
        let numerator = state >> 11;
        assert(state >> 11 < 0x20_0000_0000_0000u64) by (bit_vector);
        SyntheticReading { temperature: SYNTHETIC_TEMPERATURE, pressure_numerator: numerator }
    }
}

} // verus!
