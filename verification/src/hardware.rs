//! Where the sensor hardware is looked for.

use vstd::prelude::*;

verus! {

/// Serial device of the sensor board.
pub const HW1: &'static str = "/dev/ttyUSB0";

/// Bus device of the sensor board.
pub const HW2: &'static str = "/dev/i2c-1";

/// File that stands in for the sensor where there is no hardware.
pub const TEST_DATA: &'static str = "/tmp/sensor.dat";

/// Whether the sensor hardware is there, given whether each of its two
/// devices was found: it takes both.
pub fn have_hw(serial_found: bool, bus_found: bool) -> (r: bool)
    ensures
        r == (serial_found && bus_found),
{
    serial_found && bus_found
}

} // verus!
