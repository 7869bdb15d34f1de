//! Wire payload construction.
//!
//! The byte layouts here are part of the device's wire contract and must be
//! preserved exactly: a 2-byte button payload, a 12-byte accelerometer
//! payload with 4-byte per-axis slots, and a temperature value in tenths of
//! a degree Fahrenheit.

use vstd::prelude::*;
use crate::event::{AccelSample, PressCounts};

verus! {

/// Tenths of a degree Fahrenheit for an integer Celsius reading.
pub open spec fn fahrenheit_tenths_spec(celsius: i8) -> i16 {
    ((celsius as int) * 18 + 32) as i16
}

/// Converts an integer Celsius reading to tenths of a degree Fahrenheit.
///
/// The reading is scaled by ten and converted with the formula
/// `(c * 10 * 9 / 5) + 32`; because `c * 10 * 9` is always divisible by
/// five, the result is an exact integer.
pub fn fahrenheit_tenths(celsius: i8) -> (r: i16)
    ensures
        r as int == (celsius as int) * 10 * 9 / 5 + 32,
        r as int == (celsius as int) * 18 + 32,
        r == fahrenheit_tenths_spec(celsius),
{
    proof {
        assert((celsius as int) * 10 * 9 / 5 == (celsius as int) * 18) by (nonlinear_arith);
    }
    (celsius as i16) * 18 + 32
}

/// The unsigned 16-bit (two's complement) representation of a value.
pub open spec fn u16_rep(v: i16) -> int {
    (v as int) % 0x10000
}

/// Low byte of the little-endian encoding of a 16-bit value.
pub open spec fn le_lo_byte(v: i16) -> u8 {
    (u16_rep(v) % 0x100) as u8
}

/// High byte of the little-endian encoding of a 16-bit value.
pub open spec fn le_hi_byte(v: i16) -> u8 {
    (u16_rep(v) / 0x100) as u8
}

/// The two little-endian bytes of a 16-bit value, low byte first.
pub fn le_bytes(v: i16) -> (r: (u8, u8))
    ensures
        r.0 == le_lo_byte(v),
        r.1 == le_hi_byte(v),
{
    let w: u32 = if v >= 0 {
        v as u32
    } else {
        (v as i32 + 0x10000) as u32
    };
    proof {
        assert(w == u16_rep(v));
    }
    ((w % 0x100) as u8, (w / 0x100) as u8)
}

/// Button notification payload: each 32-bit counter narrowed (truncated) to
/// its low byte, button A first.
pub open spec fn button_payload_spec(p: PressCounts) -> Seq<u8> {
    seq![(p.a % 0x100) as u8, (p.b % 0x100) as u8]
}

/// Builds the 2-byte button notification payload.
pub fn button_payload(p: PressCounts) -> (r: Vec<u8>)
    ensures
        r@ == button_payload_spec(p),
{
    let mut r: Vec<u8> = Vec::new();
    r.push((p.a % 0x100) as u8);
    r.push((p.b % 0x100) as u8);
    proof {
        assert(r@ =~= button_payload_spec(p));
    }
    r
}

/// Accelerometer notification payload: 12 bytes, one 4-byte slot per axis in
/// the order x, y, z; each slot holds the axis value as little-endian 16-bit
/// followed by two zero padding bytes.
pub open spec fn accel_payload_spec(s: AccelSample) -> Seq<u8> {
    seq![
        le_lo_byte(s.x), le_hi_byte(s.x), 0u8, 0u8,
        le_lo_byte(s.y), le_hi_byte(s.y), 0u8, 0u8,
        le_lo_byte(s.z), le_hi_byte(s.z), 0u8, 0u8,
    ]
}

/// Builds the fixed 12-byte accelerometer notification payload.
pub fn accel_payload(s: AccelSample) -> (r: Vec<u8>)
    ensures
        r@ == accel_payload_spec(s),
{
    let mut r: Vec<u8> = Vec::new();
    let x = le_bytes(s.x);
    let y = le_bytes(s.y);
    let z = le_bytes(s.z);
    r.push(x.0);
    r.push(x.1);
    r.push(0u8);
    r.push(0u8);
    r.push(y.0);
    r.push(y.1);
    r.push(0u8);
    r.push(0u8);
    r.push(z.0);
    r.push(z.1);
    r.push(0u8);
    r.push(0u8);
    proof {
        assert(r@ =~= accel_payload_spec(s));
    }
    r
}

} // verus!
