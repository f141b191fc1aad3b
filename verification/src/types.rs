//! Plain value types shared by the lump decoders, and the error type.

use crate::lumps::helpers::{i32_at, read_f32, read_i32, read_ivec2, read_ivec3, read_vec3, u32_at};
use vstd::prelude::*;

verus! {

/// An IEEE-754 single-precision number, carried as its 32-bit pattern.
///
/// Decoding never computes with the number, so it is kept exactly as stored;
/// `f32::from_bits(value.bits)` gives the number itself.
#[derive(Debug, Clone, Copy, PartialEq, Eq)]
pub struct Float32 {
    pub bits: u32,
}

impl Float32 {
    /// The number stored little-endian at `s[at..at + 4]`.
    pub open spec fn at(s: Seq<u8>, at: int) -> Float32 {
        Float32 { bits: u32_at(s, at) as u32 }
    }
}

/// Generic (x,y,z) struct.
#[derive(Debug, Clone, Copy, PartialEq, Eq)]
pub struct Vector3 {
    pub x: Float32,
    pub y: Float32,
    pub z: Float32,
}

impl Vector3 {
    /// The vector stored as three consecutive numbers at `s[at..at + 12]`.
    pub open spec fn at(s: Seq<u8>, at: int) -> Vector3 {
        Vector3 { x: Float32::at(s, at), y: Float32::at(s, at + 4), z: Float32::at(s, at + 8) }
    }

    /// (0, 0, 0)
    pub fn zero() -> (v: Vector3)
        ensures
            v.x.bits == 0,
            v.y.bits == 0,
            v.z.bits == 0,
    {
        Vector3 { x: Float32 { bits: 0 }, y: Float32 { bits: 0 }, z: Float32 { bits: 0 } }
    }

    /// Constructs a vector from a byte buffer.
    /// bytes: 12 byte buffer: (x,y,z) as 3 single-precision numbers.
    pub fn from_bytes(bytes: [u8; 12]) -> (v: Vector3)
        ensures
            v == Vector3::at(bytes@, 0),
    {
        Vector3::from_slice(bytes.as_slice())
    }

    /// Constructs a vector from a slice of exactly 12 bytes.
    pub fn from_slice(bytes: &[u8]) -> (v: Vector3)
        requires
            bytes@.len() == 12,
        ensures
            v == Vector3::at(bytes@, 0),
    {
        read_vec3(bytes, 0)
    }
}

/// Integer (x,y,z) struct.
#[derive(Debug, Clone, Copy, PartialEq, Eq)]
pub struct IVector3 {
    pub x: i32,
    pub y: i32,
    pub z: i32,
}

impl IVector3 {
    /// The vector stored as three consecutive integers at `s[at..at + 12]`.
    pub open spec fn at(s: Seq<u8>, at: int) -> IVector3 {
        IVector3 {
            x: i32_at(s, at) as i32,
            y: i32_at(s, at + 4) as i32,
            z: i32_at(s, at + 8) as i32,
        }
    }

    /// (0, 0, 0)
    pub fn zero() -> (v: IVector3)
        ensures
            v == (IVector3 { x: 0, y: 0, z: 0 }),
    {
        IVector3 { x: 0, y: 0, z: 0 }
    }

    /// Constructs a vector from a byte buffer.
    /// bytes: 12 byte buffer: (x,y,z) as 3 i32s.
    pub fn from_bytes(bytes: [u8; 12]) -> (v: IVector3)
        ensures
            v == IVector3::at(bytes@, 0),
    {
        IVector3::from_slice(bytes.as_slice())
    }

    /// Constructs a vector from a slice of exactly 12 bytes.
    pub fn from_slice(bytes: &[u8]) -> (v: IVector3)
        requires
            bytes@.len() == 12,
        ensures
            v == IVector3::at(bytes@, 0),
    {
        read_ivec3(bytes, 0)
    }
}

/// Integer (x,y) struct.
#[derive(Debug, Clone, Copy, PartialEq, Eq)]
pub struct IVector2 {
    pub x: i32,
    pub y: i32,
}

impl IVector2 {
    /// The vector stored as two consecutive integers at `s[at..at + 8]`.
    pub open spec fn at(s: Seq<u8>, at: int) -> IVector2 {
        IVector2 { x: i32_at(s, at) as i32, y: i32_at(s, at + 4) as i32 }
    }

    /// (0, 0)
    pub fn zero() -> (v: IVector2)
        ensures
            v == (IVector2 { x: 0, y: 0 }),
    {
        IVector2 { x: 0, y: 0 }
    }

    /// Constructs a vector from a byte buffer.
    /// bytes: 8 byte buffer: (x,y) as 2 i32s.
    pub fn from_bytes(bytes: [u8; 8]) -> (v: IVector2)
        ensures
            v == IVector2::at(bytes@, 0),
    {
        IVector2::from_slice(bytes.as_slice())
    }

    /// Constructs a vector from a slice of exactly 8 bytes.
    pub fn from_slice(bytes: &[u8]) -> (v: IVector2)
        requires
            bytes@.len() == 8,
        ensures
            v == IVector2::at(bytes@, 0),
    {
        read_ivec2(bytes, 0)
    }
}

/// Single-precision (x,y) struct.
#[derive(Debug, Clone, Copy, PartialEq, Eq)]
pub struct Vector2 {
    pub x: Float32,
    pub y: Float32,
}

impl Vector2 {
    /// The vector stored as two consecutive numbers at `s[at..at + 8]`.
    pub open spec fn at(s: Seq<u8>, at: int) -> Vector2 {
        Vector2 { x: Float32::at(s, at), y: Float32::at(s, at + 4) }
    }

    /// (0, 0)
    pub fn zero() -> (v: Vector2)
        ensures
            v.x.bits == 0,
            v.y.bits == 0,
    {
        Vector2 { x: Float32 { bits: 0 }, y: Float32 { bits: 0 } }
    }

    /// Constructs a vector from a byte buffer.
    /// bytes: 8 byte buffer: (x,y) as 2 single-precision numbers.
    pub fn from_bytes(bytes: [u8; 8]) -> (v: Vector2)
        ensures
            v == Vector2::at(bytes@, 0),
    {
        Vector2::from_slice(bytes.as_slice())
    }

    /// Constructs a vector from a slice of exactly 8 bytes.
    pub fn from_slice(bytes: &[u8]) -> (v: Vector2)
        requires
            bytes@.len() == 8,
        ensures
            v == Vector2::at(bytes@, 0),
    {
        Vector2 { x: read_f32(bytes, 0), y: read_f32(bytes, 4) }
    }
}

/// RGBA Colour (0-255)
#[derive(Debug, Clone, Copy, PartialEq, Eq)]
pub struct RGBA {
    pub r: u8,
    pub g: u8,
    pub b: u8,
    pub a: u8,
}

impl RGBA {
    /// The colour stored at `s[at..at + 4]`.
    pub open spec fn at(s: Seq<u8>, at: int) -> RGBA {
        RGBA { r: s[at], g: s[at + 1], b: s[at + 2], a: s[at + 3] }
    }

    /// Interpret the given bytes as an RGBA colour.
    pub fn from_bytes(bytes: [u8; 4]) -> (c: RGBA)
        ensures
            c == RGBA::at(bytes@, 0),
    {
        RGBA { r: bytes[0], g: bytes[1], b: bytes[2], a: bytes[3] }
    }

    /// Convert a slice of exactly 4 bytes to an RGBA colour.
    pub fn from_slice(slice: &[u8]) -> (c: RGBA)
        requires
            slice@.len() == 4,
        ensures
            c == RGBA::at(slice@, 0),
    {
        RGBA { r: slice[0], g: slice[1], b: slice[2], a: slice[3] }
    }
}

/// RGB Colour (0-255)
#[derive(Debug, Clone, Copy, PartialEq, Eq)]
pub struct RGB {
    pub r: u8,
    pub g: u8,
    pub b: u8,
}

impl RGB {
    /// The colour stored at `s[at..at + 3]`.
    pub open spec fn at(s: Seq<u8>, at: int) -> RGB {
        RGB { r: s[at], g: s[at + 1], b: s[at + 2] }
    }

    /// 255, 255, 255
    pub fn white() -> (c: RGB)
        ensures
            c == (RGB { r: 255, g: 255, b: 255 }),
    {
        RGB { r: 255, g: 255, b: 255 }
    }

    /// Interpret the given bytes as an RGB colour.
    pub fn from_bytes(bytes: [u8; 3]) -> (c: RGB)
        ensures
            c == RGB::at(bytes@, 0),
    {
        RGB { r: bytes[0], g: bytes[1], b: bytes[2] }
    }

    /// Convert a slice of exactly 3 bytes to an RGB colour.
    pub fn from_slice(slice: &[u8]) -> (c: RGB)
        requires
            slice@.len() == 3,
        ensures
            c == RGB::at(slice@, 0),
    {
        RGB { r: slice[0], g: slice[1], b: slice[2] }
    }
}

/// An error encountered while parsing.
#[derive(Debug, Clone, Copy, PartialEq, Eq)]
pub enum Error {
    /// The buffer does not start with the magic number.
    BadMagic { expected: [u8; 4], actual: [u8; 4] },
    /// A byte length does not fit the layout; `req` is the unit it was
    /// measured against (a record size in bytes, unless the decoder says
    /// otherwise).
    BadSize { req: u32 },
    /// The bytes are there but do not mean anything: text that is not
    /// UTF-8, an entity block that does not close, an unknown face type.
    BadFormat,
    /// The header names a version that is not decoded here.
    Unsupported { version: u32 },
    /// The field `loc` holds `val`, which points outside the lump it
    /// indexes. The fields are signed words; a negative one is given as
    /// the unsigned number with the same 32 bits, and a run that ends
    /// after its lump as the sum of its first index and its length.
    BadRef { loc: &'static str, val: usize },
}

/// Generic result type.
pub type Result<T> = core::result::Result<T, Error>;

} // verus!
