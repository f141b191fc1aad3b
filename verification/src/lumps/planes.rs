//! Parses the planes lump from a bsp file.

use crate::lumps::helpers::{read_f32, read_vec3, record, record_count, whole_records};
use crate::types::{Error, Float32, Result, Vector3};
use vstd::prelude::*;

verus! {

/// The size of one plane record.
pub const PLANE_SIZE: usize = 16;

/// The size of the two records that make one `Plane`.
pub const PLANE_PAIR_SIZE: usize = 32;

/// The planes lump from a BSP file.
/// Found at lump index 2 in a q3 bsp.
#[derive(Debug, Clone)]
pub struct PlanesLump {
    pub planes: Vec<Plane>,
}

/// Generic plane, referenced by nodes & brushsides.
///
/// The lump stores planes in pairs that face opposite ways; one `Plane`
/// stands for such a pair.
#[derive(Debug, Clone, Copy, PartialEq, Eq)]
pub struct Plane {
    /// Plane normal
    pub normal: Vector3,
    /// Distance from origin to plane along normal
    pub dist: Float32,
    /// Normal of the record that follows in the lump, which faces the
    /// other way.
    pub complement_normal: Vector3,
}

impl Plane {
    /// The plane that a pair of records (32 bytes) holds: normal and
    /// distance from the first, the complement normal from the second.
    pub open spec fn of_record(rec: Seq<u8>) -> Plane {
        Plane {
            normal: Vector3::at(rec, 0),
            dist: Float32::at(rec, 12),
            complement_normal: Vector3::at(rec, 16),
        }
    }
}

impl PlanesLump {
    /// A planes lump holds a whole number of record pairs, and at least one.
    pub open spec fn size_ok(lump: Seq<u8>) -> bool {
        lump.len() != 0 && whole_records(lump, PLANE_PAIR_SIZE)
    }

    /// Why `lump` is rejected, if it is: `BadSize { req: 32 }` for its
    /// length.
    pub open spec fn error(lump: Seq<u8>) -> Option<Error> {
        if Self::size_ok(lump) {
            None
        } else {
            Some(Error::BadSize { req: PLANE_PAIR_SIZE as u32 })
        }
    }

    /// The planes that a well-sized lump holds, in order.
    pub open spec fn decoded(lump: Seq<u8>) -> Seq<Plane> {
        Seq::new(
            record_count(lump, PLANE_PAIR_SIZE) as nat,
            |i: int| Plane::of_record(record(lump, PLANE_PAIR_SIZE, i)),
        )
    }

    /// These planes are what `lump` holds, pair by pair.
    pub open spec fn decodes(&self, lump: Seq<u8>) -> bool {
        self.planes@ =~= Self::decoded(lump)
    }

    /// Parse a lump of planes.
    /// A lump is (lump length / plane size / 2) planes long.
    ///
    /// Fails with `BadSize { req: 32 }` unless the lump holds a whole,
    /// non-zero number of record pairs.
    pub fn from_lump(lump: &[u8]) -> (r: Result<PlanesLump>)
        ensures
            match r {
                Ok(l) => Self::error(lump@) is None && l.decodes(lump@),
                Err(e) => Self::error(lump@) == Some(e),
            },
    {
        if lump.len() == 0 || lump.len() % PLANE_PAIR_SIZE != 0 {
            return Err(Error::BadSize { req: PLANE_PAIR_SIZE as u32 });
        }
        let length: usize = lump.len() / PLANE_PAIR_SIZE;
        let mut planes: Vec<Plane> = Vec::with_capacity(length);
        let mut n: usize = 0;
        while n < length
            invariant
                n <= length,
                length == lump.len() / PLANE_PAIR_SIZE,
                lump.len() % PLANE_PAIR_SIZE == 0,
                planes@.len() == n,
                forall|j: int| 0 <= j < n ==> planes@[j] == Plane::of_record(
                    record(lump@, PLANE_PAIR_SIZE, j),
                ),
            decreases length - n,
        {
            let offset: usize = n * PLANE_PAIR_SIZE;
            let rec = &lump[offset..offset + PLANE_PAIR_SIZE];
            planes.push(
                Plane {
                    normal: read_vec3(rec, 0),
                    dist: read_f32(rec, 12),
                    complement_normal: read_vec3(rec, PLANE_SIZE),
                },
            );
            n += 1;
        }
        Ok(PlanesLump { planes })
    }
}

} // verus!
