//! Parses the light volumes lump: the light in each cell of a grid over
//! the map.

use crate::lumps::helpers::{record, record_count, whole_records};
use crate::types::{Error, Result, RGB};
use vstd::prelude::*;

verus! {

/// The size of one light volume record.
pub const VOL_LENGTH: usize = 8;

/// The light in one cell of the grid.
#[derive(Debug, Clone, Copy, PartialEq, Eq)]
pub struct LightVol {
    pub ambient: RGB,
    pub directional: RGB,
    /// The direction of the light, as two angles of 256 steps each.
    pub dir: [u8; 2],
}

/// The light volumes lump from a BSP file.
/// Found at lump index 15 in a q3 bsp.
#[derive(Debug, Clone)]
pub struct LightVolsLump {
    pub vols: Vec<LightVol>,
}

impl LightVol {
    /// The volume that a record (8 bytes) holds: ambient colour,
    /// directional colour, direction.
    pub open spec fn of_record(rec: Seq<u8>) -> LightVol {
        LightVol { ambient: RGB::at(rec, 0), directional: RGB::at(rec, 3), dir: [rec[6], rec[7]] }
    }
}

impl LightVolsLump {
    /// Why `lump` is rejected, if it is: `BadSize { req: 8 }` for its
    /// length.
    pub open spec fn error(lump: Seq<u8>) -> Option<Error> {
        if whole_records(lump, VOL_LENGTH) {
            None
        } else {
            Some(Error::BadSize { req: VOL_LENGTH as u32 })
        }
    }

    /// The volumes that a well-sized lump holds, in order.
    pub open spec fn decoded(lump: Seq<u8>) -> Seq<LightVol> {
        Seq::new(
            record_count(lump, VOL_LENGTH) as nat,
            |i: int| LightVol::of_record(record(lump, VOL_LENGTH, i)),
        )
    }

    /// These volumes are what `lump` holds, record by record.
    pub open spec fn decodes(&self, lump: Seq<u8>) -> bool {
        self.vols@ =~= Self::decoded(lump)
    }

    /// Parse the light volumes lump.
    pub fn from_lump(lump: &[u8]) -> (r: Result<LightVolsLump>)
        ensures
            match r {
                Ok(l) => Self::error(lump@) is None && l.decodes(lump@),
                Err(e) => Self::error(lump@) == Some(e),
            },
    {
        if lump.len() % VOL_LENGTH != 0 {
            return Err(Error::BadSize { req: VOL_LENGTH as u32 });
        }
        let length: usize = lump.len() / VOL_LENGTH;
        let mut vols: Vec<LightVol> = Vec::with_capacity(length);
        let mut n: usize = 0;
        while n < length
            invariant
                n <= length,
                length == lump.len() / VOL_LENGTH,
                lump.len() % VOL_LENGTH == 0,
                vols@.len() == n,
                forall|i: int|
                    0 <= i < n ==> #[trigger] vols@[i] == LightVol::of_record(
                        record(lump@, VOL_LENGTH, i),
                    ),
            decreases length - n,
        {
            let offset: usize = n * VOL_LENGTH;
            let data = &lump[offset..offset + VOL_LENGTH];
            vols.push(
                LightVol {
                    ambient: RGB { r: data[0], g: data[1], b: data[2] },
                    directional: RGB { r: data[3], g: data[4], b: data[5] },
                    dir: [data[6], data[7]],
                },
            );
            n += 1;
        }

        Ok(LightVolsLump { vols })
    }
}

} // verus!
