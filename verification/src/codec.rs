//! Bit-level register codec: sign-magnitude speed and load fields, the
//! 12-bit sign-magnitude position-correction wire form, and little-endian
//! register words.
//!
//! The servo's signed telemetry fields are not two's-complement: one bit
//! carries the sign and the remaining low bits carry an unsigned magnitude.
//! Speed uses bit 15 as sign with a 15-bit magnitude; load uses bit 10 as
//! sign with a 10-bit magnitude.

use vstd::prelude::*;

verus! {

/// Signed value carried by a raw speed word: bit 15 is the sign,
/// the low 15 bits are the magnitude.
pub open spec fn decoded_speed(raw: u16) -> int {
    if raw & 0x8000 != 0 {
        -((raw & 0x7fff) as int)
    } else {
        (raw & 0x7fff) as int
    }
}

/// Raw speed word for a signed value: bit 15 from the sign, low 15 bits
/// from the magnitude.
pub open spec fn speed_wire(v: int) -> int
    recommends
        -0x7fff <= v <= 0x7fff,
{
    if v < 0 {
        0x8000 + (-v)
    } else {
        v
    }
}

/// Signed value carried by a raw load word: bit 10 is the sign, the low
/// 10 bits are the magnitude. Bits above 10 are ignored.
pub open spec fn decoded_load(raw: u16) -> int {
    if raw & 0x400 != 0 {
        -((raw & 0x3ff) as int)
    } else {
        (raw & 0x3ff) as int
    }
}

/// Raw load word for a signed value: bit 10 from the sign, low 10 bits
/// from the magnitude.
pub open spec fn load_wire(v: int) -> int
    recommends
        -0x3ff <= v <= 0x3ff,
{
    if v < 0 {
        0x400 + (-v)
    } else {
        v
    }
}

/// A magnitude with the 12-bit sign bit (0x800) set. For magnitudes below
/// 0x800 this is ordinary addition of the bit; at exactly 0x800 the bit-or
/// leaves the value unchanged.
pub open spec fn with_sign_bit(m: int) -> int
    recommends
        0 <= m <= 0xfff,
{
    if m >= 0x800 {
        m
    } else {
        m + 0x800
    }
}

/// Wire form of a calibration-derived center offset, per the calibration
/// rules: negative offsets carry their magnitude with the sign bit set;
/// offsets above 2048 are re-interpreted as wrapped negatives (magnitude
/// `4096 - offset`, sign bit set); anything else passes through unchanged.
/// An offset of exactly 2048 takes the pass-through branch and is encoded
/// without the sign bit.
pub open spec fn calibration_offset_wire(off: int) -> int
    recommends
        -0xfff <= off < 0x1000,
{
    if off < 0 {
        with_sign_bit(-off)
    } else if off > 2048 {
        with_sign_bit(4096 - off)
    } else {
        off
    }
}

/// Wire form of an operator-supplied offset: negative offsets carry their
/// magnitude with the sign bit set, non-negative offsets pass through.
pub open spec fn manual_offset_wire(off: int) -> int
    recommends
        -0x7ff <= off <= 0x7ff,
{
    if off < 0 {
        with_sign_bit(-off)
    } else {
        off
    }
}

/// Unsigned register word read from two little-endian bytes.
pub open spec fn word_of_le(b0: u8, b1: u8) -> int {
    b0 + 0x100 * b1
}

proof fn lemma_mask_7fff(raw: u16)
    by (bit_vector)
    ensures
        raw & 0x7fff == raw % 0x8000,
        (raw & 0x8000 != 0) == (raw >= 0x8000),
{
}

proof fn lemma_or_8000(m: u16)
    by (bit_vector)
    requires
        m <= 0x7fff,
    ensures
        m | 0x8000 == m + 0x8000,
{
}

proof fn lemma_mask_3ff(raw: u16)
    by (bit_vector)
    ensures
        raw & 0x3ff == raw % 0x400,
        (raw & 0x400 != 0) == (raw % 0x800 >= 0x400),
        raw < 0x800 ==> (raw & 0x400 != 0) == (raw >= 0x400),
        raw < 0x800 ==> raw % 0x800 == raw,
{
}

proof fn lemma_or_400(m: u16)
    by (bit_vector)
    requires
        m <= 0x3ff,
    ensures
        m | 0x400 == m + 0x400,
{
}

proof fn lemma_or_800(m: u16)
    by (bit_vector)
    requires
        m <= 0xfff,
    ensures
        m >= 0x800 ==> m | 0x800 == m,
        m < 0x800 ==> m | 0x800 == m + 0x800,
{
}

/// Decode a raw speed word into its signed value.
pub fn decode_speed(raw: u16) -> (v: i16)
    ensures
        v as int == decoded_speed(raw),
{
    proof {
        lemma_mask_7fff(raw);
    }
    let magnitude: u16 = raw & 0x7fff;
    if raw & 0x8000 != 0 {
        -(magnitude as i16)
    } else {
        magnitude as i16
    }
}

/// Rebuild the raw speed word from a signed value: bit 15 from the sign,
/// low 15 bits from the magnitude.
pub fn encode_speed(v: i16) -> (raw: u16)
    requires
        -0x7fff <= v,
    ensures
        raw as int == speed_wire(v as int),
{
    if v < 0 {
        let magnitude: u16 = (-v) as u16;
        proof {
            lemma_or_8000(magnitude);
        }
        magnitude | 0x8000
    } else {
        v as u16
    }
}

/// Decode a raw load word into its signed value.
pub fn decode_load(raw: u16) -> (v: i16)
    ensures
        v as int == decoded_load(raw),
{
    proof {
        lemma_mask_3ff(raw);
    }
    let magnitude: u16 = raw & 0x3ff;
    if raw & 0x400 != 0 {
        -(magnitude as i16)
    } else {
        magnitude as i16
    }
}

/// Rebuild the raw load word from a signed value: bit 10 from the sign,
/// low 10 bits from the magnitude.
pub fn encode_load(v: i16) -> (raw: u16)
    requires
        -0x3ff <= v <= 0x3ff,
    ensures
        raw as int == load_wire(v as int),
{
    if v < 0 {
        let magnitude: u16 = (-v) as u16;
        proof {
            lemma_or_400(magnitude);
        }
        magnitude | 0x400
    } else {
        v as u16
    }
}

/// Encode a calibration-derived center offset into its 12-bit
/// sign-magnitude wire form.
pub fn encode_calibration_offset(off: i16) -> (raw: u16)
    requires
        -0xfff <= off < 0x1000,
    ensures
        raw as int == calibration_offset_wire(off as int),
{
    if off < 0 {
        let magnitude: u16 = (-off) as u16;
        proof {
            lemma_or_800(magnitude);
        }
        magnitude | 0x800
    } else if off > 2048 {
        let magnitude: u16 = (4096 - off) as u16;
        proof {
            lemma_or_800(magnitude);
        }
        magnitude | 0x800
    } else {
        off as u16
    }
}

/// Encode an operator-supplied offset into its sign-magnitude wire form.
pub fn encode_manual_offset(off: i16) -> (raw: u16)
    requires
        -0x7ff <= off <= 0x7ff,
    ensures
        raw as int == manual_offset_wire(off as int),
{
    if off < 0 {
        let magnitude: u16 = (-off) as u16;
        proof {
            lemma_or_800(magnitude);
        }
        magnitude | 0x800
    } else {
        off as u16
    }
}

/// Assemble an unsigned register word from two little-endian bytes.
pub fn u16_from_le(b0: u8, b1: u8) -> (w: u16)
    ensures
        w as int == word_of_le(b0, b1),
{
    b0 as u16 + (b1 as u16) * 0x100
}

/// Assemble a signed register word from two little-endian bytes,
/// two's-complement.
pub fn i16_from_le(b0: u8, b1: u8) -> (v: i16)
    ensures
        word_of_le(b0, b1) < 0x8000 ==> v as int == word_of_le(b0, b1),
        word_of_le(b0, b1) >= 0x8000 ==> v as int == word_of_le(b0, b1) - 0x10000,
{
    let w: u16 = u16_from_le(b0, b1);
    proof {
        assert(w < 0x8000 ==> w as i16 == w as int) by (bit_vector);
        assert(w >= 0x8000 ==> w as i16 == w as int - 0x10000) by (bit_vector);
    }
    w as i16
}

/// Split an unsigned register word into two little-endian bytes.
pub fn u16_to_le(w: u16) -> (b: (u8, u8))
    ensures
        word_of_le(b.0, b.1) == w as int,
{
    proof {
        assert(((w & 0xff) + 0x100 * (w >> 8)) == w) by (bit_vector);
        assert(w & 0xff <= 0xff && (w >> 8) <= 0xff) by (bit_vector);
    }
    ((w & 0xff) as u8, (w >> 8) as u8)
}

/// Speed decoding round-trips: rebuilding the raw word from the decoded
/// sign and magnitude gives back the original word. The one excluded word
/// is 0x8000, a negative zero: its decoded value is 0, whose sign bit is
/// clear when rebuilt.
pub proof fn lemma_speed_round_trip(raw: u16)
    requires
        raw != 0x8000,
    ensures
        speed_wire(decoded_speed(raw)) == raw,
{
    lemma_mask_7fff(raw);
}

/// Decoding inverts speed encoding on the full signed range.
pub proof fn lemma_speed_wire_decodes(v: int)
    requires
        -0x7fff <= v <= 0x7fff,
    ensures
        0 <= speed_wire(v) <= 0xffff,
        decoded_speed(speed_wire(v) as u16) == v,
{
    let raw = speed_wire(v) as u16;
    lemma_mask_7fff(raw);
}

/// Load decoding round-trips: rebuilding the raw word from the decoded
/// sign and magnitude gives back the original word. Excluded are words
/// with bits above the 11-bit sign-magnitude field set (they are masked
/// away by decoding) and 0x400, a negative zero.
pub proof fn lemma_load_round_trip(raw: u16)
    requires
        raw < 0x800,
        raw != 0x400,
    ensures
        load_wire(decoded_load(raw)) == raw,
{
    lemma_mask_3ff(raw);
}

/// Decoding inverts load encoding on the full signed range.
pub proof fn lemma_load_wire_decodes(v: int)
    requires
        -0x3ff <= v <= 0x3ff,
    ensures
        0 <= load_wire(v) <= 0x7ff,
        decoded_load(load_wire(v) as u16) == v,
{
    let raw = load_wire(v) as u16;
    lemma_mask_3ff(raw);
}

} // verus!
