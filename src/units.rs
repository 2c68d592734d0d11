//! Fixed-point quantities of the provider's report and their conversion to
//! the whole numbers that are printed.
//!
//! Every fractional quantity of a report is held as an integer count of
//! thousandths of its unit: 282.0 K is `282_000`, a wind speed of 5.4 is
//! `5_400`.

use vstd::prelude::*;

verus! {

/// 0 °C in thousandths of a kelvin.
pub const ZERO_CELSIUS_MILLI_KELVIN: i64 = 273150;

/// The integer nearest to `x / 1000`; a value exactly halfway between two
/// integers goes to the one farther from zero.
pub open spec fn round_thousandths_spec(x: int) -> int {
    if x >= 0 {
        (x + 500) / 1000
    } else {
        -((-x + 500) / 1000)
    }
}

/// Whole degrees Celsius for a temperature in thousandths of a kelvin.
pub open spec fn celsius_of(kelvin_milli: int) -> int {
    round_thousandths_spec(kelvin_milli - 273150)
}

/// The rounding picks the nearest whole unit, and on a tie the one farther
/// from zero.
pub proof fn round_thousandths_is_nearest(x: int)
    ensures
        x >= 0 ==> 1000 * round_thousandths_spec(x) - 500 <= x < 1000 * round_thousandths_spec(x) + 500,
        x < 0 ==> 1000 * round_thousandths_spec(x) - 500 < x <= 1000 * round_thousandths_spec(x) + 500,
        x >= 0 ==> round_thousandths_spec(x) >= 0,
        x < 0 ==> round_thousandths_spec(x) <= 0,
{
    if x >= 0 {
        let q = (x + 500) / 1000;
        assert(1000 * q <= x + 500 < 1000 * q + 1000);
    } else {
        let q = (-x + 500) / 1000;
        assert(1000 * q <= -x + 500 < 1000 * q + 1000);
    }
}

/// Rounds a count of thousandths held in a wider integer.
fn round_wide(x: i128) -> (r: i128)
    requires
        -0x1_0000_0000_0000_0000_0000 <= x <= 0x1_0000_0000_0000_0000_0000,
    ensures
        r == round_thousandths_spec(x as int),
{
    if x >= 0 {
        (x + 500) / 1000
    } else {
        -((-x + 500) / 1000)
    }
}

/// Rounds a count of thousandths to the nearest whole unit, halves away
/// from zero.
pub fn round_thousandths(x: i64) -> (r: i64)
    ensures
        r == round_thousandths_spec(x as int),
{
    round_wide(x as i128) as i64
}

/// Whole degrees Celsius, rounded, for a temperature in thousandths of a
/// kelvin.
pub fn kelvin_to_celsius(kelvin_milli: i64) -> (r: i64)
    ensures
        r == celsius_of(kelvin_milli as int),
{
    round_wide(kelvin_milli as i128 - ZERO_CELSIUS_MILLI_KELVIN as i128) as i64
}

} // verus!
