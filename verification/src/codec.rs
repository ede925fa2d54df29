//! The register codec: how the chips pack their measurements into bytes,
//! and what one count of each measurement is worth.
//!
//! Quantities are whole numbers of a small unit (microvolts, microamperes,
//! thousandths of a degree), so that every conversion is exact.

use vstd::prelude::*;

verus! {

/// The value of a 12-bit word whose upper eight bits come first and whose
/// lower bits are added from the second byte.
pub open spec fn word12(high: u8, low: u8) -> int {
    high * 16 + low
}

/// The value of a 13-bit word packed the same way.
pub open spec fn word13(high: u8, low: u8) -> int {
    high * 32 + low
}

/// The value of two bytes, most significant first, read as a signed
/// two's-complement number.
pub open spec fn signed16(high: u8, low: u8) -> int {
    if high >= 128 {
        high * 256 + low - 65536
    } else {
        high * 256 + low
    }
}

/// Reassembles a 12-bit measurement from its two bytes.
pub fn decode_12bit(high: u8, low: u8) -> (word: u16)
    ensures
        word == word12(high, low),
{
    let upper: u16 = high as u16;
    assert(upper << 4 == upper * 16) by (bit_vector)
        requires
            upper < 256,
    ;
    (upper << 4) + (low as u16)
}

/// Reassembles a 13-bit measurement from its two bytes.
pub fn decode_13bit(high: u8, low: u8) -> (word: u16)
    ensures
        word == word13(high, low),
{
    let upper: u16 = high as u16;
    assert(upper << 5 == upper * 32) by (bit_vector)
        requires
            upper < 256,
    ;
    (upper << 5) + (low as u16)
}

/// Reassembles one signed 16-bit sample from its two bytes, most
/// significant first.
pub fn decode_i16(high: u8, low: u8) -> (sample: i16)
    ensures
        sample == signed16(high, low),
{
    let word: u16 = (high as u16) * 256 + (low as u16);
    if word >= 0x8000 {
        ((word as i32) - 65536) as i16
    } else {
        word as i16
    }
}

/// Battery voltage in microvolts: 1.1 mV for each count.
pub fn bat_voltage_uv(raw: u16) -> (uv: u32)
    ensures
        uv == raw * 1100,
{
    (raw as u32) * 1100
}

/// Battery current in microamperes: half a milliampere for each count of
/// the difference between what flows in and what flows out. Negative while
/// the battery discharges.
pub fn bat_current_ua(charge_in: u16, charge_out: u16) -> (ua: i32)
    ensures
        ua == (charge_in - charge_out) * 500,
{
    ((charge_in as i32) - (charge_out as i32)) * 500
}

/// Supply voltage in microvolts: 1.7 mV for each count.
pub fn vbus_voltage_uv(raw: u16) -> (uv: u32)
    ensures
        uv == raw * 1700,
{
    (raw as u32) * 1700
}

/// Supply current in microamperes: 0.375 mA for each count.
pub fn vbus_current_ua(raw: u16) -> (ua: u32)
    ensures
        ua == raw * 375,
{
    (raw as u32) * 375
}

/// Die temperature in thousandths of a degree Celsius: a tenth of a degree
/// for each count, from 144.7 degrees below zero.
pub fn die_temperature_mc(raw: u16) -> (mc: i32)
    ensures
        mc == raw * 100 - 144700,
{
    (raw as i32) * 100 - 144700
}

/// The four-bit register field for a supply of `millivolts`: zero below
/// 1800 mV, then one step for each 100 mV, of which the field keeps the low
/// four bits.
pub open spec fn voltage_field_spec(millivolts: int) -> int {
    if millivolts < 1800 {
        0
    } else {
        ((millivolts - 1800) / 100) % 16
    }
}

/// Turns a supply voltage into its four-bit register field.
pub fn voltage_field(millivolts: i64) -> (field: u8)
    ensures
        field == voltage_field_spec(millivolts as int),
        field < 16,
        millivolts < 1800 ==> field == 0,
{
    if millivolts < 1800 {
        0
    } else {
        (((millivolts - 1800) / 100) % 16) as u8
    }
}

} // verus!
