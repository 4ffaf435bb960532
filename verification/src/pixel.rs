//! Conversion of stored integer pixels to the canonical unsigned 16-bit form.
//!
//! Every supported element type is narrowed by reinterpreting bits, never by
//! clamping: a stored value keeps exactly its low sixteen bits. Detector
//! sentinels such as `-1` therefore arrive as `0xFFFF`.

use vstd::prelude::*;

verus! {

/// The canonical pixel of a stored integer: its low sixteen bits, read as an
/// unsigned number.
pub open spec fn low16(v: int) -> u16 {
    (v % 0x1_0000) as u16
}

/// An unsigned 16-bit pixel is already canonical.
pub fn narrow_u16(v: u16) -> (r: u16)
    ensures
        r == low16(v as int),
        r == v,
{
    v
}

/// Reinterprets a signed 16-bit pixel as unsigned, keeping the bit pattern.
pub fn narrow_i16(v: i16) -> (r: u16)
    ensures
        r == low16(v as int),
{
    let r: u16 = #[verifier::truncate] (v as u16);
    assert(r == ((v as int) % 0x1_0000) as u16) by (bit_vector)
        requires
            r == v as u16,
    ;
    r
}

/// Narrows a signed 32-bit pixel: truncation to 16 bits, then the same
/// reinterpretation as for `i16`.
pub fn narrow_i32(v: i32) -> (r: u16)
    ensures
        r == low16(v as int),
{
    let t: i16 = #[verifier::truncate] (v as i16);
    let r: u16 = #[verifier::truncate] (t as u16);
    assert(r == ((v as int) % 0x1_0000) as u16) by (bit_vector)
        requires
            t == v as i16,
            r == t as u16,
    ;
    r
}

/// Narrows an unsigned 32-bit pixel through `i32` and `i16`.
pub fn narrow_u32(v: u32) -> (r: u16)
    ensures
        r == low16(v as int),
{
    let s: i32 = #[verifier::truncate] (v as i32);
    let t: i16 = #[verifier::truncate] (s as i16);
    let r: u16 = #[verifier::truncate] (t as u16);
    assert(r == ((v as int) % 0x1_0000) as u16) by (bit_vector)
        requires
            s == v as i32,
            t == s as i16,
            r == t as u16,
    ;
    r
}

/// The element type of an image stack, as far as the decoder tells types
/// apart.
#[derive(Debug, Clone, PartialEq, Eq)]
pub enum ElementType {
    U16,
    I16,
    I32,
    U32,
    /// Any other type, with its descriptor.
    Other(String),
}

/// One of the four supported element types.
#[derive(Debug, Clone, Copy, PartialEq, Eq, Structural)]
pub enum PixelType {
    U16,
    I16,
    I32,
    U32,
}

impl ElementType {
    /// The supported type this element type is, if any.
    pub open spec fn supported(self) -> Option<PixelType> {
        match self {
            ElementType::U16 => Some(PixelType::U16),
            ElementType::I16 => Some(PixelType::I16),
            ElementType::I32 => Some(PixelType::I32),
            ElementType::U32 => Some(PixelType::U32),
            ElementType::Other(_) => None,
        }
    }
}

/// The pixels of one frame as stored, row-major.
#[derive(Debug, Clone, PartialEq, Eq)]
pub enum RawPixels {
    U16(Vec<u16>),
    I16(Vec<i16>),
    I32(Vec<i32>),
    U32(Vec<u32>),
}

impl RawPixels {
    /// The stored values as mathematical integers.
    pub open spec fn values(self) -> Seq<int> {
        match self {
            RawPixels::U16(v) => v@.map_values(|x: u16| x as int),
            RawPixels::I16(v) => v@.map_values(|x: i16| x as int),
            RawPixels::I32(v) => v@.map_values(|x: i32| x as int),
            RawPixels::U32(v) => v@.map_values(|x: u32| x as int),
        }
    }

    /// The canonical frame buffer: each stored value narrowed to its low
    /// sixteen bits, in the stored order.
    pub open spec fn canonical(self) -> Seq<u16> {
        self.values().map_values(|x: int| low16(x))
    }

    /// How many pixels are stored.
    pub fn len(&self) -> (n: usize)
        ensures
            n == self.values().len(),
    {
        match self {
            RawPixels::U16(v) => v.len(),
            RawPixels::I16(v) => v.len(),
            RawPixels::I32(v) => v.len(),
            RawPixels::U32(v) => v.len(),
        }
    }

    /// Converts the stored pixels to the canonical 16-bit buffer.
    pub fn into_canonical(self) -> (out: Vec<u16>)
        ensures
            out@ == self.canonical(),
    {
        match self {
            RawPixels::U16(v) => {
                assert(v@ =~= RawPixels::U16(v).canonical());
                v
            },
            RawPixels::I16(v) => {
                let mut out: Vec<u16> = Vec::new();
                let mut i: usize = 0;
                while i < v.len()
                    invariant
                        i <= v.len(),
                        out@ == RawPixels::I16(v).canonical().take(i as int),
                    decreases v.len() - i,
                {
                    out.push(narrow_i16(v[i]));
                    i = i + 1;
                }
                out
            },
            RawPixels::I32(v) => {
                let mut out: Vec<u16> = Vec::new();
                let mut i: usize = 0;
                while i < v.len()
                    invariant
                        i <= v.len(),
                        out@ == RawPixels::I32(v).canonical().take(i as int),
                    decreases v.len() - i,
                {
                    out.push(narrow_i32(v[i]));
                    i = i + 1;
                }
                out
            },
            RawPixels::U32(v) => {
                let mut out: Vec<u16> = Vec::new();
                let mut i: usize = 0;
                while i < v.len()
                    invariant
                        i <= v.len(),
                        out@ == RawPixels::U32(v).canonical().take(i as int),
                    decreases v.len() - i,
                {
                    out.push(narrow_u32(v[i]));
                    i = i + 1;
                }
                out
            },
        }
    }
}

} // verus!
