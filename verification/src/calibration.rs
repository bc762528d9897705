//! The calibration coefficients that the QMP6988 stores in its OTP memory,
//! and their decoding from the 25 bytes that start at register `0xa0`.

use vstd::prelude::*;

verus! {

/// The number of calibration bytes the device returns, from register `0xa0` on.
pub const CALIBRATION_LEN: usize = 25;

/// The unsigned number that two bytes give, the first one most significant.
pub open spec fn be_u16(hi: u8, lo: u8) -> int {
    hi as int * 256 + lo as int
}

/// The value of a 16-bit two's-complement word whose unsigned reading is `raw`.
pub open spec fn sign_extend_16(raw: int) -> int {
    if raw >= 0x8000 {
        raw - 0x1_0000
    } else {
        raw
    }
}

/// The value of a 20-bit two's-complement word whose unsigned reading is `raw`.
pub open spec fn sign_extend_20(raw: int) -> int {
    if raw >= 0x8_0000 {
        raw - 0x10_0000
    } else {
        raw
    }
}

/// The unsigned 20-bit word made of two whole bytes followed by a nibble.
pub open spec fn be_u20(hi: u8, mid: u8, nibble: int) -> int {
    hi as int * 4096 + mid as int * 16 + nibble
}

/// The raw calibration coefficients, as the device stores them.
///
/// `a0` and `b00` are 20-bit signed words; all the others are 16-bit signed
/// words.
#[derive(Clone, Copy, Debug, PartialEq, Eq)]
pub struct Coe {
    pub a0: i32,
    pub a1: i16,
    pub a2: i16,
    pub b00: i32,
    pub bt1: i16,
    pub bt2: i16,
    pub bp1: i16,
    pub b11: i16,
    pub bp2: i16,
    pub b12: i16,
    pub b21: i16,
    pub bp3: i16,
}

/// The signed 16-bit coefficient stored big-endian at `v[i]`, `v[i + 1]`.
pub open spec fn word16(v: Seq<u8>, i: int) -> i16 {
    sign_extend_16(be_u16(v[i], v[i + 1])) as i16
}

/// The coefficients that the 25 calibration bytes `v` encode.
///
/// The low nibble of `v[24]` completes `a0` (after `v[18]`, `v[19]`), its high
/// nibble completes `b00` (after `v[0]`, `v[1]`); the sixteen-bit
/// coefficients follow each other big-endian.
pub open spec fn decode_coe(v: Seq<u8>) -> Coe {
    Coe {
        a0: sign_extend_20(be_u20(v[18], v[19], v[24] as int % 16)) as i32,
        a1: word16(v, 20),
        a2: word16(v, 22),
        b00: sign_extend_20(be_u20(v[0], v[1], v[24] as int / 16)) as i32,
        bt1: word16(v, 2),
        bt2: word16(v, 4),
        bp1: word16(v, 6),
        b11: word16(v, 8),
        bp2: word16(v, 10),
        b12: word16(v, 12),
        b21: word16(v, 14),
        bp3: word16(v, 16),
    }
}

/// Reads two bytes as one big-endian signed 16-bit word.
fn be_i16(hi: u8, lo: u8) -> (r: i16)
    ensures
        r == sign_extend_16(be_u16(hi, lo)),
{
    let raw: u16 = (hi as u16) << 8 | (lo as u16);
    assert(((hi as u16) << 8 | (lo as u16)) == hi * 256 + lo) by (bit_vector);
    let r: i16 = raw as i16;
    assert(raw < 0x8000 ==> raw as i16 == raw) by (bit_vector);
    assert(raw >= 0x8000 ==> raw as i16 == raw - 0x1_0000) by (bit_vector);
    r
}

/// Sign-extends a 20-bit word held in the low bits of `raw`.
fn sign_extend_20_bits(raw: u32) -> (r: i32)
    requires
        raw < 0x10_0000,
    ensures
        r == sign_extend_20(raw as int),
{
    assert(raw < 0x10_0000 && raw < 0x8_0000 ==> ((raw << 12) as i32) >> 12 == raw) by (bit_vector);
    assert(raw < 0x10_0000 && raw >= 0x8_0000 ==> ((raw << 12) as i32) >> 12 == raw - 0x10_0000)
        by (bit_vector);
    ((raw << 12) as i32) >> 12
}

/// Joins two bytes and a nibble into an unsigned 20-bit word.
fn be_u20_bits(hi: u8, mid: u8, nibble: u32) -> (r: u32)
    requires
        nibble < 16,
    ensures
        r == be_u20(hi, mid, nibble as int),
        r < 0x10_0000,
{
    assert(nibble < 16 ==> ((hi as u32) << 12 | (mid as u32) << 4 | nibble) == hi * 4096 + mid * 16
        + nibble) by (bit_vector);
    (hi as u32) << 12 | (mid as u32) << 4 | nibble
}

impl Coe {
    /// The coefficients held before any have been read: all zero.
    pub fn zero() -> (c: Coe)
        ensures
            c == (Coe { a0: 0, a1: 0, a2: 0, b00: 0, bt1: 0, bt2: 0, bp1: 0, b11: 0, bp2: 0, b12: 0, b21: 0, bp3: 0 }),
    {
        Coe { a0: 0, a1: 0, a2: 0, b00: 0, bt1: 0, bt2: 0, bp1: 0, b11: 0, bp2: 0, b12: 0, b21: 0, bp3: 0 }
    }

    /// Decodes the 25 calibration bytes read from register `0xa0` on.
    pub fn from_bytes(value: &[u8; 25]) -> (c: Coe)
        ensures
            c == decode_coe(value@),
    {
        let low: u8 = value[24];
        let a0_nibble: u32 = (low as u32) & 0x0f;
        let b00_nibble: u32 = ((low as u32) & 0xf0) >> 4;
        assert(((low as u32) & 0x0f) == low % 16) by (bit_vector);
        assert((((low as u32) & 0xf0) >> 4) == low / 16) by (bit_vector);
        let a0 = sign_extend_20_bits(be_u20_bits(value[18], value[19], a0_nibble));
        let b00 = sign_extend_20_bits(be_u20_bits(value[0], value[1], b00_nibble));
        Coe {
            a0,
            a1: be_i16(value[20], value[21]),
            a2: be_i16(value[22], value[23]),
            b00,
            bt1: be_i16(value[2], value[3]),
            bt2: be_i16(value[4], value[5]),
            bp1: be_i16(value[6], value[7]),
            b11: be_i16(value[8], value[9]),
            bp2: be_i16(value[10], value[11]),
            b12: be_i16(value[12], value[13]),
            b21: be_i16(value[14], value[15]),
            bp3: be_i16(value[16], value[17]),
        }
    }
}

} // verus!
