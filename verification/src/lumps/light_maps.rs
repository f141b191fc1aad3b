//! Parses the LightMaps lump

use crate::lumps::helpers::{record, record_count, whole_records};
use crate::types::{Error, Result, RGB};
use vstd::prelude::*;
use vstd::std_specs::cmp::PartialEqSpecImpl;

verus! {

/// The size of one LightMap
pub const LIGHTMAP_SIZE: usize = 49152;

/// Stores light map textures that help make surface lighting more realistic
#[derive(Debug, Clone)]
pub struct LightMap {
    pub map: [[RGB; 128]; 128],
}

impl LightMap {
    /// This map is what a record (128 × 128 × 3 bytes) holds: the texel
    /// at `[x][y]` is the three bytes at `(128 x + y) 3`.
    pub open spec fn decodes(&self, rec: Seq<u8>) -> bool {
        forall|x: int, y: int|
            0 <= x < 128 && 0 <= y < 128 ==> #[trigger] self.map@[x]@[y] == RGB::at(
                rec,
                (128 * x + y) * 3,
            )
    }

    /// Both maps hold the same texels.
    pub open spec fn same_texels(&self, other: &LightMap) -> bool {
        forall|x: int, y: int|
            0 <= x < 128 && 0 <= y < 128 ==> #[trigger] self.map@[x]@[y] == other.map@[x]@[y]
    }
}

impl PartialEq for LightMap {
    fn eq(&self, other: &LightMap) -> (r: bool) {
        let mut x: usize = 0;
        while x < 128
            invariant
                x <= 128,
                forall|i: int, j: int|
                    0 <= i < x && 0 <= j < 128 ==> #[trigger] self.map@[i]@[j] == other.map@[i]@[j],
            decreases 128 - x,
        {
            let mut y: usize = 0;
            while y < 128
                invariant
                    x < 128,
                    y <= 128,
                    forall|i: int, j: int|
                        0 <= i < x && 0 <= j < 128 ==> #[trigger] self.map@[i]@[j]
                            == other.map@[i]@[j],
                    forall|j: int|
                        0 <= j < y ==> #[trigger] self.map@[x as int]@[j]
                            == other.map@[x as int]@[j],
                decreases 128 - y,
            {
                let a = self.map[x][y];
                let b = other.map[x][y];
                if a.r != b.r || a.g != b.g || a.b != b.b {
                    return false;
                }
                y += 1;
            }
            x += 1;
        }
        true
    }
}

impl PartialEqSpecImpl for LightMap {
    open spec fn obeys_eq_spec() -> bool {
        true
    }

    open spec fn eq_spec(&self, other: &LightMap) -> bool {
        self.same_texels(other)
    }
}

/// Stores all the LightMaps parsed from a BSP file.
#[derive(Debug, Clone)]
pub struct LightMapsLump {
    pub maps: Vec<LightMap>,
}

impl LightMapsLump {
    /// Why `lump` is rejected, if it is: `BadSize { req: 49152 }` for its
    /// length.
    pub open spec fn error(lump: Seq<u8>) -> Option<Error> {
        if whole_records(lump, LIGHTMAP_SIZE) {
            None
        } else {
            Some(Error::BadSize { req: LIGHTMAP_SIZE as u32 })
        }
    }

    /// These maps are what `lump` holds, record by record.
    pub open spec fn decodes(&self, lump: Seq<u8>) -> bool {
        &&& self.maps@.len() == record_count(lump, LIGHTMAP_SIZE)
        &&& forall|i: int|
            0 <= i < self.maps@.len() ==> (#[trigger] self.maps@[i]).decodes(
                record(lump, LIGHTMAP_SIZE, i),
            )
    }

    /// Parse the LightMap lump from a bsp file.
    pub fn from_lump(lump: &[u8]) -> (r: Result<LightMapsLump>)
        ensures
            match r {
                Ok(l) => Self::error(lump@) is None && l.decodes(lump@),
                Err(e) => Self::error(lump@) == Some(e),
            },
    {
        if lump.len() % LIGHTMAP_SIZE != 0 {
            return Err(Error::BadSize { req: LIGHTMAP_SIZE as u32 });
        }
        let length: usize = lump.len() / LIGHTMAP_SIZE;
        let mut maps: Vec<LightMap> = Vec::with_capacity(length);

        let mut n: usize = 0;
        while n < length
            invariant
                n <= length,
                length == lump.len() / LIGHTMAP_SIZE,
                lump.len() % LIGHTMAP_SIZE == 0,
                maps@.len() == n,
                forall|i: int|
                    0 <= i < n ==> (#[trigger] maps@[i]).decodes(record(lump@, LIGHTMAP_SIZE, i)),
            decreases length - n,
        {
            let start: usize = n * LIGHTMAP_SIZE;
            let raw = &lump[start..start + LIGHTMAP_SIZE];
            let mut map: [[RGB; 128]; 128] = [[RGB::white(); 128]; 128];

            let mut x: usize = 0;
            while x < 128
                invariant
                    x <= 128,
                    raw.len() == 49152,
                    forall|i: int, j: int|
                        0 <= i < x && 0 <= j < 128 ==> #[trigger] map@[i]@[j] == RGB::at(
                            raw@,
                            (128 * i + j) * 3,
                        ),
                decreases 128 - x,
            {
                let mut y: usize = 0;
                while y < 128
                    invariant
                        x < 128,
                        y <= 128,
                        raw.len() == 49152,
                        forall|i: int, j: int|
                            0 <= i < x && 0 <= j < 128 ==> #[trigger] map@[i]@[j] == RGB::at(
                                raw@,
                                (128 * i + j) * 3,
                            ),
                        forall|j: int|
                            0 <= j < y ==> #[trigger] map@[x as int]@[j] == RGB::at(
                                raw@,
                                (128 * x + j) * 3,
                            ),
                    decreases 128 - y,
                {
                    let offset: usize = (x * 128 * 3) + (y * 3);
                    map[x][y] = RGB::from_slice(&raw[offset..offset + 3]);
                    y += 1;
                }
                x += 1;
            }
            maps.push(LightMap { map });
            n += 1;
        }

        Ok(LightMapsLump { maps })
    }
}

} // verus!
