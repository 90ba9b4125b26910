//! Packed 24-bit color codec.
//!
//! The wire form of a color is a single unsigned integer holding the three
//! channels in big-endian order (`0xRRGGBB`); the top byte of the packed
//! form is always zero and is ignored on decode.

use vstd::prelude::*;
use crate::errors::RequestError;
use crate::json::{JsonValue, JsonView};

verus! {

/// RGB color with three independent byte channels.
#[derive(Clone, Copy, Debug, PartialEq, Eq, Structural)]
pub struct Rgb {
    pub r: u8,
    pub g: u8,
    pub b: u8,
}

/// The packed big-endian wire integer of a color: `0xRRGGBB`.
pub open spec fn spec_packed(c: Rgb) -> int {
    c.r * 0x1_0000 + c.g * 0x100 + c.b
}

/// The color held in the low 24 bits of a packed integer.
pub open spec fn spec_unpacked(v: int) -> Rgb {
    Rgb { r: (v / 0x1_0000 % 0x100) as u8, g: (v / 0x100 % 0x100) as u8, b: (v % 0x100) as u8 }
}

impl Rgb {
    /// Pack the three channels into a big-endian `u32` (top byte zero).
    pub fn to_u32(self) -> (v: u32)
        ensures
            v == spec_packed(self),
            v <= 0xFF_FF_FF,
    {
        (self.r as u32) * 0x1_0000 + (self.g as u32) * 0x100 + (self.b as u32)
    }

    /// Extract the three channels from the low 24 bits of a big-endian
    /// `u32`; the top byte is ignored.
    pub fn from_u32(rgb: u32) -> (c: Self)
        ensures
            c == spec_unpacked(rgb as int),
    {
        let r: u32 = rgb / 0x1_0000 % 0x100;
        let g: u32 = rgb / 0x100 % 0x100;
        let b: u32 = rgb % 0x100;
        Rgb { r: r as u8, g: g as u8, b: b as u8 }
    }
}

/// What decoding a wire integer yields: any value that fits 32 bits is
/// accepted and its low 24 bits are read; a wider value is out of range.
pub open spec fn spec_decode_color(v: JsonView) -> Result<Rgb, RequestError> {
    match v {
        JsonView::Int(n) => if 0 <= n <= 0xFFFF_FFFF {
            Result::Ok(spec_unpacked(n))
        } else {
            Result::Err(RequestError::ValueOutOfRange)
        },
        _ => Result::Err(RequestError::Decode),
    }
}

impl Rgb {
    /// Decode a color from a 64-bit wire integer.  Values above the 32-bit
    /// domain are rejected as out of range; the top byte of an accepted
    /// value is ignored.
    pub fn decode_u64(v: u64) -> (r: Result<Self, RequestError>)
        ensures
            v <= 0xFFFF_FFFF ==> r == Result::<Rgb, RequestError>::Ok(spec_unpacked(v as int)),
            v > 0xFFFF_FFFF ==> r == Result::<Rgb, RequestError>::Err(RequestError::ValueOutOfRange),
    {
        if v > 0xFFFF_FFFF {
            Result::Err(RequestError::ValueOutOfRange)
        } else {
            Result::Ok(Self::from_u32(v as u32))
        }
    }

    /// Wire form of the color: its packed integer as a JSON number.
    pub fn encode_json(self) -> (v: JsonValue)
        ensures
            v.dv() == JsonView::Int(spec_packed(self)),
    {
        JsonValue::UInt(self.to_u32() as u64)
    }

    /// Decode a color from its JSON wire form, in either integer shape.
    pub fn decode_json(v: &JsonValue) -> (r: Result<Self, RequestError>)
        ensures
            r == spec_decode_color(v.dv()),
    {
        match v {
            JsonValue::UInt(n) => Self::decode_u64(*n),
            JsonValue::Int(n) => {
                if *n < 0 {
                    Result::Err(RequestError::ValueOutOfRange)
                } else {
                    Self::decode_u64(*n as u64)
                }
            },
            _ => Result::Err(RequestError::Decode),
        }
    }
}

/// Encoding a color and decoding the wire integer returns the original
/// color: the JSON codec pair is mutually inverse on the whole domain.
pub proof fn lemma_rgb_json_round_trip(c: Rgb)
    ensures
        spec_decode_color(JsonView::Int(spec_packed(c))) == Result::<Rgb, RequestError>::Ok(c),
{
    lemma_rgb_round_trip(c);
}

/// Packing then unpacking returns the original channels: the codec pair is
/// mutually inverse on every representable color.
pub proof fn lemma_rgb_round_trip(c: Rgb)
    ensures
        spec_unpacked(spec_packed(c)) == c,
{
    let v = spec_packed(c);
    assert(v / 0x1_0000 % 0x100 == c.r) by (nonlinear_arith)
        requires
            v == c.r * 0x1_0000 + c.g * 0x100 + c.b,
            c.r < 0x100,
            c.g < 0x100,
            c.b < 0x100,
    ;
    assert(v / 0x100 % 0x100 == c.g) by (nonlinear_arith)
        requires
            v == c.r * 0x1_0000 + c.g * 0x100 + c.b,
            c.r < 0x100,
            c.g < 0x100,
            c.b < 0x100,
    ;
    assert(v % 0x100 == c.b) by (nonlinear_arith)
        requires
            v == c.r * 0x1_0000 + c.g * 0x100 + c.b,
            c.b < 0x100,
    ;
}

/// Unpacking then packing keeps exactly the low 24 bits of the wire
/// integer: the top byte is dropped, everything else round-trips.
pub proof fn lemma_rgb_pack_unpack(v: u32)
    ensures
        spec_packed(spec_unpacked(v as int)) == v % 0x100_0000,
{
    assert((v as int / 0x1_0000 % 0x100) * 0x1_0000 + (v as int / 0x100 % 0x100) * 0x100 + v as int % 0x100
        == v as int % 0x100_0000) by (nonlinear_arith);
}

} // verus!
