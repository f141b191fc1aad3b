//! Helper functions for parsing

use crate::types::{Error, Float32, IVector2, IVector3, Result, Vector3};
use core::ops::Range;
use vstd::prelude::*;

verus! {

/// The unsigned number that four bytes hold, least significant byte first.
pub open spec fn le_u32(s: Seq<u8>) -> int
    recommends
        s.len() == 4,
{
    s[0] + 0x100 * s[1] + 0x1_0000 * s[2] + 0x100_0000 * s[3]
}

/// The signed (two's complement) number that four bytes hold, least
/// significant byte first.
pub open spec fn le_i32(s: Seq<u8>) -> int
    recommends
        s.len() == 4,
{
    if le_u32(s) < 0x8000_0000 {
        le_u32(s)
    } else {
        le_u32(s) - 0x1_0000_0000
    }
}

/// The unsigned little-endian number at `s[at..at + 4]`.
pub open spec fn u32_at(s: Seq<u8>, at: int) -> int {
    le_u32(s.subrange(at, at + 4))
}

/// The signed little-endian number at `s[at..at + 4]`.
pub open spec fn i32_at(s: Seq<u8>, at: int) -> int {
    le_i32(s.subrange(at, at + 4))
}

/// How many whole records of `size` bytes a lump holds.
pub open spec fn record_count(lump: Seq<u8>, size: usize) -> int {
    lump.len() as int / size as int
}

/// Whether a lump is made of whole records of `size` bytes.
pub open spec fn whole_records(lump: Seq<u8>, size: usize) -> bool {
    lump.len() % (size as nat) == 0
}

/// Record `i` of a lump made of records of `size` bytes.
pub open spec fn record(lump: Seq<u8>, size: usize, i: int) -> Seq<u8> {
    lump.subrange(i * size, i * size + size)
}

/// `v` as a `usize`, or the largest `usize` where `v` does not fit.
///
/// An index that a `BadRef` reports is at most the sum of two 32-bit
/// fields, which a 32-bit `usize` cannot always hold.
pub open spec fn clip(v: int) -> usize {
    if v > usize::MAX {
        usize::MAX
    } else {
        v as usize
    }
}

/// `v` as a `usize`, or the largest `usize` where `v` does not fit.
pub fn clip_u64(v: u64) -> (r: usize)
    ensures
        r == clip(v as int),
{
    if v > usize::MAX as u64 {
        usize::MAX
    } else {
        v as usize
    }
}

/// The unsigned number with the same 32 bits as the signed `word`.
///
/// A `BadRef` reports a word as this number, which is the word itself
/// unless it is negative.
pub open spec fn as_unsigned(word: int) -> int {
    if word < 0 {
        word + 0x1_0000_0000
    } else {
        word
    }
}

/// The unsigned number with the same 32 bits as `word`.
pub fn unsigned_word(word: i32) -> (r: u32)
    ensures
        r == as_unsigned(word as int),
{
    if word >= 0 {
        word as u32
    } else {
        let wide: i64 = word as i64 + 0x1_0000_0000;
        wide as u32
    }
}

/// Why the signed `word` is no index into a lump of `len` records, if it
/// is none: `BadRef` where it is negative or not below `len`.
pub open spec fn index_error(word: int, len: int, loc: &'static str) -> Option<Error> {
    if 0 <= word < len {
        None
    } else {
        Some(Error::BadRef { loc, val: as_unsigned(word) as usize })
    }
}

/// Why the signed words `first` and `count` name no run of records in a
/// lump of `len` records, if they name none: `BadRef` where one of them
/// is negative or the run ends after the lump. The error reports the sum
/// of the two words.
pub open spec fn range_error(first: int, count: int, len: int, loc: &'static str) -> Option<
    Error,
> {
    if 0 <= first && 0 <= count && first + count <= len {
        None
    } else {
        Some(Error::BadRef { loc, val: clip(as_unsigned(first) + as_unsigned(count)) })
    }
}

/// The run of `count` indices from `first` on.
pub open spec fn range_of(first: int, count: int) -> Range<usize> {
    (first as usize)..((first + count) as usize)
}

/// The index at `data[at..at + 4]` into a lump of `len` records.
pub fn read_index(data: &[u8], at: usize, len: usize, loc: &'static str) -> (r: Result<usize>)
    requires
        at + 4 <= data.len(),
    ensures
        match r {
            Ok(index) => {
                &&& index_error(i32_at(data@, at as int), len as int, loc) is None
                &&& index == i32_at(data@, at as int)
            },
            Err(e) => index_error(i32_at(data@, at as int), len as int, loc) == Some(e),
        },
{
    let word: i32 = read_i32(data, at);
    if word < 0 || word as usize >= len {
        return Err(Error::BadRef { loc, val: unsigned_word(word) as usize });
    }
    Ok(word as usize)
}

/// The run of records in a lump of `len` records that the two words at
/// `data[at..at + 8]` name: the first record, then the number of records.
pub fn read_range(data: &[u8], at: usize, len: usize, loc: &'static str) -> (r: Result<
    Range<usize>,
>)
    requires
        at + 8 <= data.len(),
    ensures
        match r {
            Ok(range) => {
                &&& range_error(
                    i32_at(data@, at as int),
                    i32_at(data@, at + 4),
                    len as int,
                    loc,
                ) is None
                &&& range == range_of(i32_at(data@, at as int), i32_at(data@, at + 4))
            },
            Err(e) => range_error(
                i32_at(data@, at as int),
                i32_at(data@, at + 4),
                len as int,
                loc,
            ) == Some(e),
        },
{
    let first: i32 = read_i32(data, at);
    let count: i32 = read_i32(data, at + 4);
    if first < 0 || count < 0 || first as u64 + count as u64 > len as u64 {
        let sum: u64 = unsigned_word(first) as u64 + unsigned_word(count) as u64;
        return Err(Error::BadRef { loc, val: clip_u64(sum) });
    }
    Ok((first as usize)..(first as usize + count as usize))
}

/// The error of the first record in `from..to` that has one, where
/// `err_at(i)` is the error of record `i` taken alone.
///
/// Decoders read their records in order and stop at the first that fails,
/// so this is the error that a lump as a whole is rejected with.
pub open spec fn first_error(from: int, to: int, err_at: spec_fn(int) -> Option<Error>) -> Option<
    Error,
>
    decreases to - from,
{
    if from >= to {
        None
    } else if err_at(from) is Some {
        err_at(from)
    } else {
        first_error(from + 1, to, err_at)
    }
}

/// Where `first_error` finds nothing, no record has an error.
pub proof fn lemma_first_error_none(from: int, to: int, err_at: spec_fn(int) -> Option<Error>)
    requires
        first_error(from, to, err_at) is None,
    ensures
        forall|i: int| from <= i < to ==> (#[trigger] err_at(i)) is None,
    decreases to - from,
{
    if from < to {
        lemma_first_error_none(from + 1, to, err_at);
    }
}

/// What `first_error` finds is the error of a record before which no
/// record has an error.
pub proof fn lemma_first_error_some(from: int, to: int, err_at: spec_fn(int) -> Option<Error>)
    requires
        first_error(from, to, err_at) is Some,
    ensures
        exists|k: int|
            from <= k < to && #[trigger] err_at(k) == first_error(from, to, err_at)
                && forall|i: int| from <= i < k ==> (#[trigger] err_at(i)) is None,
    decreases to - from,
{
    if err_at(from) is None {
        lemma_first_error_some(from + 1, to, err_at);
        let k = choose|k: int|
            from + 1 <= k < to && #[trigger] err_at(k) == first_error(from + 1, to, err_at)
                && forall|i: int| from + 1 <= i < k ==> (#[trigger] err_at(i)) is None;
        assert(from <= k < to && err_at(k) == first_error(from, to, err_at) && forall|i: int|
            from <= i < k ==> (#[trigger] err_at(i)) is None);
    } else {
        assert(from <= from < to && err_at(from) == first_error(from, to, err_at) && forall|i: int|
            from <= i < from ==> (#[trigger] err_at(i)) is None);
    }
}

/// The error of a record before which no record has an error is what
/// `first_error` finds.
pub proof fn lemma_first_error_at(
    from: int,
    to: int,
    err_at: spec_fn(int) -> Option<Error>,
    k: int,
)
    requires
        from <= k < to,
        err_at(k) is Some,
        forall|i: int| from <= i < k ==> (#[trigger] err_at(i)) is None,
    ensures
        first_error(from, to, err_at) == err_at(k),
    decreases k - from,
{
    if from < k {
        lemma_first_error_at(from + 1, to, err_at, k);
    }
}

/// Turn a slice into a le u32, used for some bitflags.
pub fn slice_to_u32(slice: &[u8]) -> (r: u32)
    requires
        slice@.len() == 4,
    ensures
        r == le_u32(slice@),
{
    let b0: u32 = slice[0] as u32;
    let b1: u32 = slice[1] as u32;
    let b2: u32 = slice[2] as u32;
    let b3: u32 = slice[3] as u32;
    b0 + 0x100 * b1 + 0x1_0000 * b2 + 0x100_0000 * b3
}

/// Turn a slice into a le i32, the int datatype in a bsp file.
pub fn slice_to_i32(slice: &[u8]) -> (r: i32)
    requires
        slice@.len() == 4,
    ensures
        r == le_i32(slice@),
{
    let u: u32 = slice_to_u32(slice);
    if u < 0x8000_0000 {
        u as i32
    } else {
        let low: i32 = (u - 0x8000_0000) as i32;
        low + i32::MIN
    }
}

/// Turn a slice into a le single-precision number, the float datatype in
/// a bsp file.
pub fn slice_to_f32(slice: &[u8]) -> (r: Float32)
    requires
        slice@.len() == 4,
    ensures
        r.bits == le_u32(slice@),
{
    Float32 { bits: slice_to_u32(slice) }
}

/// Turn a slice of 12 bytes into an (x,y,z) vector of numbers.
pub fn slice_to_vec3(slice: &[u8]) -> (r: Vector3)
    requires
        slice@.len() == 12,
    ensures
        r == Vector3::at(slice@, 0),
{
    read_vec3(slice, 0)
}

/// Turn a slice of 12 bytes into an (x,y,z) vector of integers.
pub fn slice_to_vec3i(slice: &[u8]) -> (r: IVector3)
    requires
        slice@.len() == 12,
    ensures
        r == IVector3::at(slice@, 0),
{
    read_ivec3(slice, 0)
}

/// Turn a slice of 8 bytes into an (x,y) vector of integers.
pub fn slice_to_vec2i(slice: &[u8]) -> (r: IVector2)
    requires
        slice@.len() == 8,
    ensures
        r == IVector2::at(slice@, 0),
{
    read_ivec2(slice, 0)
}

/// The unsigned number at `data[at..at + 4]`.
pub fn read_u32(data: &[u8], at: usize) -> (r: u32)
    requires
        at + 4 <= data.len(),
    ensures
        r == u32_at(data@, at as int),
{
    slice_to_u32(&data[at..at + 4])
}

/// The signed number at `data[at..at + 4]`.
pub fn read_i32(data: &[u8], at: usize) -> (r: i32)
    requires
        at + 4 <= data.len(),
    ensures
        r == i32_at(data@, at as int),
{
    slice_to_i32(&data[at..at + 4])
}

/// The single-precision number at `data[at..at + 4]`.
pub fn read_f32(data: &[u8], at: usize) -> (r: Float32)
    requires
        at + 4 <= data.len(),
    ensures
        r == Float32::at(data@, at as int),
{
    slice_to_f32(&data[at..at + 4])
}

/// The vector of numbers at `data[at..at + 12]`.
pub fn read_vec3(data: &[u8], at: usize) -> (r: Vector3)
    requires
        at + 12 <= data.len(),
    ensures
        r == Vector3::at(data@, at as int),
{
    Vector3 { x: read_f32(data, at), y: read_f32(data, at + 4), z: read_f32(data, at + 8) }
}

/// The vector of integers at `data[at..at + 12]`.
pub fn read_ivec3(data: &[u8], at: usize) -> (r: IVector3)
    requires
        at + 12 <= data.len(),
    ensures
        r == IVector3::at(data@, at as int),
{
    IVector3 { x: read_i32(data, at), y: read_i32(data, at + 4), z: read_i32(data, at + 8) }
}

/// The vector of integers at `data[at..at + 8]`.
pub fn read_ivec2(data: &[u8], at: usize) -> (r: IVector2)
    requires
        at + 8 <= data.len(),
    ensures
        r == IVector2::at(data@, at as int),
{
    IVector2 { x: read_i32(data, at), y: read_i32(data, at + 4) }
}

} // verus!
