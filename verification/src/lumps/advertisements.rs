//! Parses the advertisements lump, which only Quake Live maps have.

use crate::lumps::helpers::{read_u32, read_vec3, record, record_count, u32_at, whole_records};
use crate::types::{Error, Result, Vector3};
use vstd::prelude::*;

verus! {

/// The size of one advertisement record.
pub const ADVERTISEMENT_SIZE: usize = 128;

/// A rectangle in the world on which an advertisement is shown.
#[derive(Debug, Clone)]
pub struct Advertisement {
    pub cell_id: u32,
    pub normal: Vector3,
    pub rect: [Vector3; 4],
    /// This is size 64
    pub model: [u8; 64],
}

/// The advertisements lump of a Quake Live file.
/// Found at lump index 17.
#[derive(Debug, Clone)]
pub struct AdvertisementsLump {
    pub advertisements: Vec<Advertisement>,
}

impl Advertisement {
    /// This advertisement is what a record (128 bytes) holds: the cell,
    /// the normal, the four corners, and 64 bytes that name a model.
    pub open spec fn decodes(&self, rec: Seq<u8>) -> bool {
        &&& self.cell_id == u32_at(rec, 0)
        &&& self.normal == Vector3::at(rec, 4)
        &&& self.rect@ =~= seq![
            Vector3::at(rec, 16),
            Vector3::at(rec, 28),
            Vector3::at(rec, 40),
            Vector3::at(rec, 52),
        ]
        &&& self.model@ =~= rec.subrange(64, 128)
    }
}

impl AdvertisementsLump {
    /// Why `lump` is rejected, if it is: `BadSize { req: 128 }` for its
    /// length.
    pub open spec fn error(lump: Seq<u8>) -> Option<Error> {
        if whole_records(lump, ADVERTISEMENT_SIZE) {
            None
        } else {
            Some(Error::BadSize { req: ADVERTISEMENT_SIZE as u32 })
        }
    }

    /// These advertisements are what `lump` holds, record by record.
    pub open spec fn decodes(&self, lump: Seq<u8>) -> bool {
        &&& self.advertisements@.len() == record_count(lump, ADVERTISEMENT_SIZE)
        &&& forall|i: int|
            0 <= i < self.advertisements@.len() ==> (#[trigger] self.advertisements@[i]).decodes(
                record(lump, ADVERTISEMENT_SIZE, i),
            )
    }

    /// Parse the advertisements lump.
    pub fn from_lump(buf: &[u8]) -> (r: Result<AdvertisementsLump>)
        ensures
            match r {
                Ok(l) => Self::error(buf@) is None && l.decodes(buf@),
                Err(e) => Self::error(buf@) == Some(e),
            },
    {
        if buf.len() % ADVERTISEMENT_SIZE != 0 {
            return Err(Error::BadSize { req: ADVERTISEMENT_SIZE as u32 });
        }
        let n_ads: usize = buf.len() / ADVERTISEMENT_SIZE;

        let mut advertisements: Vec<Advertisement> = Vec::with_capacity(n_ads);
        let mut n: usize = 0;
        while n < n_ads
            invariant
                n <= n_ads,
                n_ads == buf.len() / ADVERTISEMENT_SIZE,
                buf.len() % ADVERTISEMENT_SIZE == 0,
                advertisements@.len() == n,
                forall|i: int|
                    0 <= i < n ==> (#[trigger] advertisements@[i]).decodes(
                        record(buf@, ADVERTISEMENT_SIZE, i),
                    ),
            decreases n_ads - n,
        {
            let offset: usize = n * ADVERTISEMENT_SIZE;
            let raw = &buf[offset..offset + ADVERTISEMENT_SIZE];

            let mut model: [u8; 64] = [0u8; 64];
            let mut k: usize = 0;
            while k < 64
                invariant
                    k <= 64,
                    raw.len() == 128,
                    forall|j: int| 0 <= j < k ==> model@[j] == raw@[64 + j],
                decreases 64 - k,
            {
                model[k] = raw[64 + k];
                k += 1;
            }

            advertisements.push(
                Advertisement {
                    cell_id: read_u32(raw, 0),
                    normal: read_vec3(raw, 4),
                    rect: [
                        read_vec3(raw, 16),
                        read_vec3(raw, 28),
                        read_vec3(raw, 40),
                        read_vec3(raw, 52),
                    ],
                    model,
                },
            );
            n += 1;
        }

        Ok(AdvertisementsLump { advertisements })
    }
}

} // verus!
