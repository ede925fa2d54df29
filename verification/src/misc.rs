//! Small arithmetic helpers shared by the drivers.

use vstd::prelude::*;

verus! {

/// Quotient of `a` by `b` rounded toward zero, the way the machine divides
/// signed integers.
pub open spec fn div_toward_zero(a: int, b: int) -> int
    recommends
        b != 0,
{
    if a >= 0 && b > 0 {
        a / b
    } else if a >= 0 {
        -(a / (-b))
    } else if b > 0 {
        -((-a) / b)
    } else {
        (-a) / (-b)
    }
}

/// The point on the line through `(in_min, out_min)` and `(in_max, out_max)`
/// above `x`, with the slope applied before the division and the quotient
/// rounded toward zero.
pub open spec fn map_spec(x: int, in_min: int, in_max: int, out_min: int, out_max: int) -> int
    recommends
        in_min != in_max,
{
    div_toward_zero((x - in_min) * (out_max - out_min), in_max - in_min) + out_min
}

/// Whether every intermediate value of the interpolation fits a signed
/// 64-bit word.
pub open spec fn map_fits(x: int, in_min: int, in_max: int, out_min: int, out_max: int) -> bool {
    &&& in_min != in_max
    &&& i64::MIN <= in_max - in_min <= i64::MAX
    &&& i64::MIN <= out_max - out_min <= i64::MAX
    &&& i64::MIN <= x - in_min <= i64::MAX
    &&& i64::MIN <= (x - in_min) * (out_max - out_min) <= i64::MAX
    &&& !((x - in_min) * (out_max - out_min) == i64::MIN && in_max - in_min == -1)
    &&& i64::MIN <= map_spec(x, in_min, in_max, out_min, out_max) <= i64::MAX
}

/// Re-maps `x` from the range `in_min..in_max` onto `out_min..out_max` by
/// linear interpolation.
pub fn map(x: i64, in_min: i64, in_max: i64, out_min: i64, out_max: i64) -> (y: i64)
    requires
        map_fits(x as int, in_min as int, in_max as int, out_min as int, out_max as int),
    ensures
        y == map_spec(x as int, in_min as int, in_max as int, out_min as int, out_max as int),
{
    let run: i64 = in_max - in_min;
    let rise: i64 = out_max - out_min;
    let delta: i64 = x - in_min;
    assert(i64::MIN <= delta * rise <= i64::MAX);
    let scaled: i64 = delta * rise;
    // The divisor is made positive first: dividing by a negative number
    // gives the same quotient as dividing the negated value by its negation.
    let quotient: i128 = if run > 0 {
        (scaled as i128) / (run as i128)
    } else {
        (-(scaled as i128)) / (-(run as i128))
    };
    (quotient + out_min as i128) as i64
}

/// The millisecond count for a microsecond count: the thousandth part,
/// rounded toward zero, of which a 32-bit counter keeps the low 32 bits.
pub open spec fn millis_spec(micros: int) -> int {
    div_toward_zero(micros, 1000) % 0x1_0000_0000
}

/// Turns the microsecond clock into the millisecond clock that the buttons
/// are polled with. The result wraps round after about 49 days.
pub fn millis(micros: i64) -> (ms: u32)
    ensures
        ms == millis_spec(micros as int),
{
    let whole: i64 = micros / 1000;
    if whole >= 0 {
        (whole % 0x1_0000_0000) as u32
    } else {
        let below: i64 = (-whole) % 0x1_0000_0000;
        if below == 0 {
            0
        } else {
            (0x1_0000_0000 - below) as u32
        }
    }
}

} // verus!
