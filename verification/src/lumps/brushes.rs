//! Parses the brushes & brushsides lumps from a bsp file

use crate::lumps::helpers::{
    as_unsigned, clip_u64, first_error, i32_at, index_error, lemma_first_error_at,
    lemma_first_error_none, range_error,
    read_i32, read_index, record, record_count, unsigned_word, whole_records,
};
use crate::lumps::planes::PlanesLump;
use crate::lumps::textures::TexturesLump;
use crate::types::{Error, Result};
use vstd::prelude::*;

verus! {

/// The size of one brush record.
pub const BRUSH_SIZE: usize = 12;

/// The size of one brushsize record
pub const SIDE_SIZE: usize = 8;

/// Names the texture index of a brush in a `BadRef`.
pub const BRUSH_TEXTURE: &'static str = "Brush.texture_idx";

/// Names the run of sides of a brush in a `BadRef`.
pub const BRUSH_SIDES: &'static str = "Brush.sides";

/// Names the plane index of a brush side in a `BadRef`.
pub const SIDE_PLANE: &'static str = "BrushSide.plane_idx";

/// Names the texture index of a brush side in a `BadRef`.
pub const SIDE_TEXTURE: &'static str = "BrushSide.texture_idx";

/// A brushes lump from a bsp file.
/// BrushSides are also stored inside here.
#[derive(Debug, Clone)]
pub struct BrushesLump {
    pub brushes: Vec<Brush>,
}

/// One brush record. Used for collision detection.
/// "Each brush describes a convex volume as defined by its surrounding surfaces."
#[derive(Debug, Clone, PartialEq)]
pub struct Brush {
    pub sides: Vec<BrushSide>,
    pub texture_idx: usize,
}

/// Bounding surface for brush.
#[derive(Debug, Clone, Copy, PartialEq, Eq)]
pub struct BrushSide {
    /// Index of the plane record. Records come in pairs that make one
    /// `Plane` each, so the plane is `plane_idx / 2`.
    pub plane_idx: usize,
    pub texture_idx: usize,
    /// Whether the side lies on the second record of the pair, and so
    /// faces along the plane's complement normal.
    pub is_opposing: bool,
}

impl BrushSide {
    /// Both indices of the side point into their lumps.
    pub open spec fn refs_valid(&self, n_textures: int, n_planes: int) -> bool {
        &&& self.plane_idx / 2 < n_planes
        &&& self.texture_idx < n_textures
    }

    /// Why a record (8 bytes) is not a side: its plane or its texture
    /// does not exist. Both words are signed, and a negative one names
    /// nothing.
    pub open spec fn record_error(rec: Seq<u8>, n_textures: int, n_planes: int) -> Option<Error> {
        if i32_at(rec, 0) < 0 || i32_at(rec, 0) / 2 >= n_planes {
            Some(Error::BadRef { loc: SIDE_PLANE, val: as_unsigned(i32_at(rec, 0)) as usize })
        } else {
            index_error(i32_at(rec, 4), n_textures, SIDE_TEXTURE)
        }
    }

    /// The side that a record (8 bytes) holds: the plane index, of which
    /// the low bit says which way the side faces, and the texture index.
    pub open spec fn of_record(rec: Seq<u8>) -> BrushSide {
        BrushSide {
            plane_idx: i32_at(rec, 0) as usize,
            texture_idx: i32_at(rec, 4) as usize,
            is_opposing: i32_at(rec, 0) % 2 != 0,
        }
    }
}

impl Brush {
    /// Every index of the brush and of its sides points into its lump.
    pub open spec fn refs_valid(&self, n_textures: int, n_planes: int) -> bool {
        &&& self.texture_idx < n_textures
        &&& forall|j: int|
            0 <= j < self.sides@.len() ==> (#[trigger] self.sides@[j]).refs_valid(
                n_textures,
                n_planes,
            )
    }

    /// The error of each side of the run that starts at record `first`
    /// of `sides`, by its place in the run.
    pub open spec fn side_errors(sides: Seq<u8>, first: int, n_textures: int, n_planes: int)
        -> spec_fn(int) -> Option<Error> {
        |j: int| BrushSide::record_error(record(sides, SIDE_SIZE, first + j), n_textures, n_planes)
    }

    /// Why the run of `count` sides from record `first` cannot be read:
    /// it starts before the lump or ends after it, or one of its sides is
    /// in error. A count of zero or less asks for no side and is never in
    /// error.
    pub open spec fn sides_error(
        sides: Seq<u8>,
        first: int,
        count: int,
        n_textures: int,
        n_planes: int,
    ) -> Option<Error> {
        if count <= 0 {
            None
        } else if range_error(first, count, record_count(sides, SIDE_SIZE), BRUSH_SIDES) is Some {
            range_error(first, count, record_count(sides, SIDE_SIZE), BRUSH_SIDES)
        } else {
            first_error(0, count, Self::side_errors(sides, first, n_textures, n_planes))
        }
    }

    /// The run of `count` sides from record `first`.
    pub open spec fn sides_of(sides: Seq<u8>, first: int, count: int) -> Seq<BrushSide> {
        if count <= 0 {
            Seq::empty()
        } else {
            Seq::new(
                count as nat,
                |j: int| BrushSide::of_record(record(sides, SIDE_SIZE, first + j)),
            )
        }
    }

    /// Why a record (12 bytes) is not a brush: its texture does not
    /// exist, or its sides cannot be read.
    pub open spec fn record_error(rec: Seq<u8>, sides: Seq<u8>, n_textures: int, n_planes: int)
        -> Option<Error> {
        if index_error(i32_at(rec, 8), n_textures, BRUSH_TEXTURE) is Some {
            index_error(i32_at(rec, 8), n_textures, BRUSH_TEXTURE)
        } else {
            Self::sides_error(sides, i32_at(rec, 0), i32_at(rec, 4), n_textures, n_planes)
        }
    }

    /// This brush is what a record (12 bytes) holds: the first side, the
    /// number of sides and the texture index.
    pub open spec fn decodes(&self, rec: Seq<u8>, sides: Seq<u8>) -> bool {
        &&& self.texture_idx == i32_at(rec, 8)
        &&& self.sides@ =~= Self::sides_of(sides, i32_at(rec, 0), i32_at(rec, 4))
    }

    /// A brush that a record without error holds points into its lumps:
    /// its texture exists, and so do the plane and the texture of each of
    /// its sides.
    pub proof fn lemma_decoded_refs_valid(
        &self,
        rec: Seq<u8>,
        sides: Seq<u8>,
        n_textures: int,
        n_planes: int,
    )
        requires
            Self::record_error(rec, sides, n_textures, n_planes) is None,
            self.decodes(rec, sides),
        ensures
            self.refs_valid(n_textures, n_planes),
    {
        let first = i32_at(rec, 0);
        let count = i32_at(rec, 4);
        if count > 0 {
            lemma_first_error_none(0, count, Self::side_errors(sides, first, n_textures, n_planes));
            assert forall|j: int| 0 <= j < self.sides@.len() implies
                (#[trigger] self.sides@[j]).refs_valid(n_textures, n_planes)
            by {
                assert(Self::side_errors(sides, first, n_textures, n_planes)(j) is None);
            }
        }
    }
}

impl BrushesLump {
    /// Every index in the lump points into its lump; `n_planes` counts
    /// planes, each made of two records.
    pub open spec fn refs_valid(&self, n_textures: int, n_planes: int) -> bool {
        forall|i: int|
            0 <= i < self.brushes@.len() ==> (#[trigger] self.brushes@[i]).refs_valid(
                n_textures,
                n_planes,
            )
    }

    /// The error of each brush record, by its index.
    pub open spec fn record_errors(
        brushes: Seq<u8>,
        sides: Seq<u8>,
        n_textures: int,
        n_planes: int,
    ) -> spec_fn(int) -> Option<Error> {
        |i: int| Brush::record_error(record(brushes, BRUSH_SIZE, i), sides, n_textures, n_planes)
    }

    /// Why the two lumps are rejected, if they are: `BadSize` with the
    /// record size of the lump whose length is wrong, else the error of
    /// the first brush that has one.
    pub open spec fn error(brushes: Seq<u8>, sides: Seq<u8>, n_textures: int, n_planes: int)
        -> Option<Error> {
        if !whole_records(brushes, BRUSH_SIZE) {
            Some(Error::BadSize { req: BRUSH_SIZE as u32 })
        } else if !whole_records(sides, SIDE_SIZE) {
            Some(Error::BadSize { req: SIDE_SIZE as u32 })
        } else {
            first_error(
                0,
                record_count(brushes, BRUSH_SIZE),
                Self::record_errors(brushes, sides, n_textures, n_planes),
            )
        }
    }

    /// These brushes are what the two lumps hold, record by record.
    pub open spec fn decodes(&self, brushes: Seq<u8>, sides: Seq<u8>) -> bool {
        &&& self.brushes@.len() == record_count(brushes, BRUSH_SIZE)
        &&& forall|i: int|
            0 <= i < self.brushes@.len() ==> (#[trigger] self.brushes@[i]).decodes(
                record(brushes, BRUSH_SIZE, i),
                sides,
            )
    }

    /// Brushes that two lumps without error hold point into their lumps:
    /// checking them again after decoding finds nothing.
    pub proof fn lemma_decoded_refs_valid(
        &self,
        brushes: Seq<u8>,
        sides: Seq<u8>,
        n_textures: int,
        n_planes: int,
    )
        requires
            Self::error(brushes, sides, n_textures, n_planes) is None,
            self.decodes(brushes, sides),
        ensures
            self.refs_valid(n_textures, n_planes),
    {
        lemma_first_error_none(
            0,
            record_count(brushes, BRUSH_SIZE),
            Self::record_errors(brushes, sides, n_textures, n_planes),
        );
        assert forall|i: int| 0 <= i < self.brushes@.len() implies
            (#[trigger] self.brushes@[i]).refs_valid(n_textures, n_planes)
        by {
            assert(Self::record_errors(brushes, sides, n_textures, n_planes)(i) is None);
            self.brushes@[i].lemma_decoded_refs_valid(
                record(brushes, BRUSH_SIZE, i),
                sides,
                n_textures,
                n_planes,
            );
        }
    }

    /// Where the first record in error is a brush whose texture word is
    /// negative or not below the number of textures, the lumps are
    /// rejected with a `BadRef` that names that field and holds that
    /// word.
    pub proof fn lemma_first_bad_texture(
        brushes: Seq<u8>,
        sides: Seq<u8>,
        n_textures: int,
        n_planes: int,
        k: int,
    )
        requires
            whole_records(brushes, BRUSH_SIZE),
            whole_records(sides, SIDE_SIZE),
            0 <= k < record_count(brushes, BRUSH_SIZE),
            forall|i: int|
                0 <= i < k ==> (#[trigger] Self::record_errors(
                    brushes,
                    sides,
                    n_textures,
                    n_planes,
                )(i)) is None,
            !(0 <= i32_at(record(brushes, BRUSH_SIZE, k), 8) < n_textures),
        ensures
            Self::error(brushes, sides, n_textures, n_planes) == Some(
                Error::BadRef {
                    loc: BRUSH_TEXTURE,
                    val: as_unsigned(i32_at(record(brushes, BRUSH_SIZE, k), 8)) as usize,
                },
            ),
    {
        lemma_first_error_at(
            0,
            record_count(brushes, BRUSH_SIZE),
            Self::record_errors(brushes, sides, n_textures, n_planes),
            k,
        );
    }

    /// Parse the brushes & brushsides lump from a bsp file.
    ///
    /// Every texture and plane that a brush or a side names must exist in
    /// the lumps given, and every run of sides must lie in the sides lump.
    pub fn from_lump(
        brushes_lump: &[u8],
        brush_sides_lump: &[u8],
        textures_lump: &TexturesLump,
        planes_lump: &PlanesLump,
    ) -> (r: Result<BrushesLump>)
        ensures
            match r {
                Ok(l) => {
                    &&& Self::error(
                        brushes_lump@,
                        brush_sides_lump@,
                        textures_lump.textures@.len() as int,
                        planes_lump.planes@.len() as int,
                    ) is None
                    &&& l.decodes(brushes_lump@, brush_sides_lump@)
                    &&& l.refs_valid(
                        textures_lump.textures@.len() as int,
                        planes_lump.planes@.len() as int,
                    )
                },
                Err(e) => Self::error(
                    brushes_lump@,
                    brush_sides_lump@,
                    textures_lump.textures@.len() as int,
                    planes_lump.planes@.len() as int,
                ) == Some(e),
            },
    {
        if brushes_lump.len() % BRUSH_SIZE != 0 {
            return Err(Error::BadSize { req: BRUSH_SIZE as u32 });
        }
        if brush_sides_lump.len() % SIDE_SIZE != 0 {
            return Err(Error::BadSize { req: SIDE_SIZE as u32 });
        }
        let length: usize = brushes_lump.len() / BRUSH_SIZE;
        let n_textures: usize = textures_lump.textures.len();
        let n_planes: usize = planes_lump.planes.len();
        let ghost errs = Self::record_errors(
            brushes_lump@,
            brush_sides_lump@,
            n_textures as int,
            n_planes as int,
        );

        let mut brushes: Vec<Brush> = Vec::with_capacity(length);
        let mut n: usize = 0;
        while n < length
            invariant
                n <= length,
                length == brushes_lump.len() / BRUSH_SIZE,
                brushes_lump.len() % BRUSH_SIZE == 0,
                brush_sides_lump.len() % SIDE_SIZE == 0,
                n_textures == textures_lump.textures@.len(),
                n_planes == planes_lump.planes@.len(),
                errs == Self::record_errors(
                    brushes_lump@,
                    brush_sides_lump@,
                    n_textures as int,
                    n_planes as int,
                ),
                first_error(0, length as int, errs) == first_error(n as int, length as int, errs),
                brushes@.len() == n,
                forall|i: int|
                    0 <= i < n ==> (#[trigger] brushes@[i]).decodes(
                        record(brushes_lump@, BRUSH_SIZE, i),
                        brush_sides_lump@,
                    ),
            decreases length - n,
        {
            let offset: usize = n * BRUSH_SIZE;
            let brush = &brushes_lump[offset..offset + BRUSH_SIZE];

            let texture_idx = read_index(brush, 8, n_textures, BRUSH_TEXTURE)?;
            let sides = match BrushesLump::get_sides(
                brush_sides_lump,
                read_i32(brush, 0),
                read_i32(brush, 4),
                textures_lump,
                planes_lump,
            ) {
                Ok(sides) => sides,
                Err(e) => {
                    return Err(e);
                },
            };
            brushes.push(Brush { sides, texture_idx });
            n += 1;
        }

        let lump = BrushesLump { brushes };
        proof {
            lump.lemma_decoded_refs_valid(
                brushes_lump@,
                brush_sides_lump@,
                n_textures as int,
                n_planes as int,
            );
        }
        Ok(lump)
    }

    /// Internal function to get the relevant brushsides for a brush from
    /// the data in the brush lump.
    fn get_sides(
        brush_sides_lump: &[u8],
        start: i32,
        length: i32,
        textures_lump: &TexturesLump,
        planes_lump: &PlanesLump,
    ) -> (r: Result<Vec<BrushSide>>)
        requires
            brush_sides_lump.len() % SIDE_SIZE == 0,
        ensures
            match r {
                Ok(sides) => {
                    &&& Brush::sides_error(
                        brush_sides_lump@,
                        start as int,
                        length as int,
                        textures_lump.textures@.len() as int,
                        planes_lump.planes@.len() as int,
                    ) is None
                    &&& sides@ =~= Brush::sides_of(brush_sides_lump@, start as int, length as int)
                },
                Err(e) => Brush::sides_error(
                    brush_sides_lump@,
                    start as int,
                    length as int,
                    textures_lump.textures@.len() as int,
                    planes_lump.planes@.len() as int,
                ) == Some(e),
            },
    {
        let mut sides: Vec<BrushSide> = Vec::new();
        if length <= 0 {
            return Ok(sides);
        }
        let count: usize = length as usize;
        let n_sides: usize = brush_sides_lump.len() / SIDE_SIZE;
        if start < 0 || start as u64 + length as u64 > n_sides as u64 {
            let sum: u64 = unsigned_word(start) as u64 + length as u64;
            return Err(Error::BadRef { loc: BRUSH_SIDES, val: clip_u64(sum) });
        }
        let first: usize = start as usize;
        let n_textures: usize = textures_lump.textures.len();
        let n_planes: usize = planes_lump.planes.len();
        let ghost errs = Brush::side_errors(
            brush_sides_lump@,
            start as int,
            n_textures as int,
            n_planes as int,
        );

        let mut j: usize = 0;
        while j < count
            invariant
                j <= count,
                count == length,
                first == start,
                first + count <= n_sides,
                n_sides == brush_sides_lump.len() / SIDE_SIZE,
                n_textures == textures_lump.textures@.len(),
                n_planes == planes_lump.planes@.len(),
                errs == Brush::side_errors(
                    brush_sides_lump@,
                    start as int,
                    n_textures as int,
                    n_planes as int,
                ),
                first_error(0, count as int, errs) == first_error(j as int, count as int, errs),
                sides@.len() == j,
                forall|k: int|
                    0 <= k < j ==> #[trigger] sides@[k] == BrushSide::of_record(
                        record(brush_sides_lump@, SIDE_SIZE, first + k),
                    ),
            decreases count - j,
        {
            let offset: usize = (first + j) * SIDE_SIZE;
            let side = &brush_sides_lump[offset..offset + SIDE_SIZE];

            let plane: i32 = read_i32(side, 0);
            if plane < 0 || (plane / 2) as usize >= n_planes {
                return Err(Error::BadRef { loc: SIDE_PLANE, val: unsigned_word(plane) as usize });
            }
            let texture_idx = read_index(side, 4, n_textures, SIDE_TEXTURE)?;
            sides.push(
                BrushSide { plane_idx: plane as usize, texture_idx, is_opposing: plane % 2 != 0 },
            );
            j += 1;
        }

        Ok(sides)
    }
}

} // verus!
