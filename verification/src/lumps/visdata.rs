//! Parses the visibility lump: which clusters can be seen from which.

use crate::lumps::helpers::{read_u32, u32_at};
use crate::types::{Error, Result};
use bit_vec::BitVec;
use vstd::arithmetic::power2::pow2;
use vstd::prelude::*;

verus! {

/// The size of the two numbers that the lump starts with.
pub const VIS_HEADER_SIZE: usize = 8;

/// `bit_vec::BitVec`, a vector of bits packed into blocks of type `B`.
/// Nothing is known here of how it stores them; `bits` names what it
/// holds.
#[verifier::external_type_specification]
#[verifier::external_body]
#[verifier::reject_recursive_types(B)]
pub struct ExBitVec<B>(BitVec<B>);

/// The bits that a `BitVec` holds, from index 0 on: what its `get`,
/// indexing and `iter` give, and as many as its `len`.
pub uninterp spec fn bits(v: BitVec<u32>) -> Seq<bool>;

/// Bit `k` of a byte, where bit 0 is the least significant.
pub open spec fn bit_of(byte: u8, k: int) -> bool {
    (byte as int / pow2(k as nat) as int) % 2 == 1
}

/// The bits of a run of bytes: eight for each byte, the most significant
/// bit of a byte first.
pub open spec fn bits_of_bytes(bytes: Seq<u8>) -> Seq<bool> {
    Seq::new(8 * bytes.len(), |i: int| bit_of(bytes[i / 8], 7 - i % 8))
}

/// `BitVec::from_bytes` turns each byte into eight bits, the most
/// significant first, as its documentation says. It stops the program
/// where the number of bits does not fit a `usize`, so that is asked of
/// the caller. Not proved here.
pub assume_specification[ BitVec::<u32>::from_bytes ](bytes: &[u8]) -> (r: BitVec<u32>)
    requires
        bytes.len() * 8 <= usize::MAX,
    ensures
        bits(r) == bits_of_bytes(bytes@),
;

/// Stores cluster-to-cluster visibility information.
#[derive(Debug, Clone)]
pub struct VisDataLump {
    /// Each vector is an array of bools which states if that cluster is visible for this.
    /// For example, if vecs[x][y] == true, then they are visible.
    /// Every BitVec has the same length.
    pub vecs: Vec<BitVec>,
}

impl VisDataLump {
    /// The number of vectors that the lump says it holds.
    pub open spec fn n_vecs(data: Seq<u8>) -> int {
        u32_at(data, 0)
    }

    /// The number of bytes that the lump says each vector has.
    pub open spec fn size_vecs(data: Seq<u8>) -> int {
        u32_at(data, 4)
    }

    /// The bytes of vector `i`.
    pub open spec fn vec_bytes(data: Seq<u8>, i: int) -> Seq<u8> {
        data.subrange(
            VIS_HEADER_SIZE + i * Self::size_vecs(data),
            VIS_HEADER_SIZE + i * Self::size_vecs(data) + Self::size_vecs(data),
        )
    }

    /// What follows the two numbers is as many vectors of as many bytes
    /// as they say, no more and no less.
    pub open spec fn content_fits(data: Seq<u8>) -> bool {
        data.len() - VIS_HEADER_SIZE == Self::n_vecs(data) * Self::size_vecs(data)
    }

    /// A `usize` can count the bits of a vector, if there is any vector.
    pub open spec fn bits_fit(data: Seq<u8>) -> bool {
        Self::n_vecs(data) > 0 ==> Self::size_vecs(data) * 8 <= usize::MAX
    }

    /// Why `data` is rejected, if it is: `BadSize { req: 8 }` where it is
    /// too short for its two numbers; `BadSize` with the size of a vector
    /// where what follows them is not that many vectors of that size, or
    /// where a vector has more bits than a `usize` counts.
    pub open spec fn error(data: Seq<u8>) -> Option<Error> {
        if data.len() < VIS_HEADER_SIZE {
            Some(Error::BadSize { req: VIS_HEADER_SIZE as u32 })
        } else if !Self::content_fits(data) || !Self::bits_fit(data) {
            Some(Error::BadSize { req: Self::size_vecs(data) as u32 })
        } else {
            None
        }
    }

    /// These vectors are what `data` holds: bit `8 k + j` of a vector is
    /// bit `7 - j` of its byte `k`.
    pub open spec fn decodes(&self, data: Seq<u8>) -> bool {
        &&& self.vecs@.len() == Self::n_vecs(data)
        &&& forall|i: int|
            0 <= i < self.vecs@.len() ==> bits(#[trigger] self.vecs@[i]) == bits_of_bytes(
                Self::vec_bytes(data, i),
            )
    }

    /// Parse the visibility lump: the number of vectors, the size of a
    /// vector in bytes, then the vectors.
    pub fn from_lump(data: &[u8]) -> (r: Result<VisDataLump>)
        ensures
            match r {
                Ok(l) => Self::error(data@) is None && l.decodes(data@),
                Err(e) => Self::error(data@) == Some(e),
            },
    {
        if data.len() < VIS_HEADER_SIZE {
            return Err(Error::BadSize { req: VIS_HEADER_SIZE as u32 });
        }
        let n: u32 = read_u32(data, 0);
        let size: u32 = read_u32(data, 4);
        assert(n as u64 * size as u64 <= 0xffff_ffff * 0xffff_ffff) by (nonlinear_arith)
            requires
                n <= 0xffff_ffff,
                size <= 0xffff_ffff,
        ;
        if (data.len() - VIS_HEADER_SIZE) as u64 != n as u64 * size as u64 {
            return Err(Error::BadSize { req: size });
        }
        if n > 0 && size as usize > usize::MAX / 8 {
            return Err(Error::BadSize { req: size });
        }
        let n_vecs: usize = n as usize;
        let size_vecs: usize = size as usize;

        let mut vecs: Vec<BitVec> = Vec::with_capacity(n_vecs);
        let mut i: usize = 0;
        while i < n_vecs
            invariant
                i <= n_vecs,
                n_vecs == Self::n_vecs(data@),
                size_vecs == Self::size_vecs(data@),
                data.len() - VIS_HEADER_SIZE == n_vecs * size_vecs,
                n_vecs > 0 ==> size_vecs * 8 <= usize::MAX,
                vecs@.len() == i,
                forall|k: int|
                    0 <= k < i ==> bits(#[trigger] vecs@[k]) == bits_of_bytes(
                        Self::vec_bytes(data@, k),
                    ),
            decreases n_vecs - i,
        {
            assert(i * size_vecs + size_vecs <= n_vecs * size_vecs) by (nonlinear_arith)
                requires
                    i < n_vecs,
            ;
            let offset: usize = VIS_HEADER_SIZE + i * size_vecs;
            let slice = &data[offset..offset + size_vecs];
            vecs.push(BitVec::from_bytes(slice));
            i += 1;
        }

        Ok(VisDataLump { vecs })
    }
}

} // verus!
