//! Parses the textures lump: surface descriptions.

use crate::lumps::helpers::{first_error, read_u32, record, record_count, u32_at, whole_records};
use crate::lumps::text::text_of;
use crate::types::{Error, Result};
use vstd::prelude::*;
use vstd::utf8::{decode_utf8, valid_utf8};

verus! {

/// The size of one texture record.
pub const TEXTURE_LUMP_SIZE: usize = 72;

/// Surface descriptions
#[derive(Debug, Clone)]
pub struct TexturesLump {
    pub textures: Vec<Texture>,
}

/// A record from a `TexturesLump`
#[derive(Debug, Clone, PartialEq)]
pub struct Texture {
    /// The name, always 64 bytes of text.
    pub name: String,
    pub surface: SurfaceFlags,
    pub contents: ContentsFlags,
}

impl Texture {
    /// Why a record (72 bytes) is not a texture: its name is not text.
    pub open spec fn record_error(rec: Seq<u8>) -> Option<Error> {
        if valid_utf8(rec.subrange(0, 64)) {
            None
        } else {
            Some(Error::BadFormat)
        }
    }

    /// This texture is what a record (72 bytes) holds: 64 bytes of name,
    /// then the surface flags and the contents flags.
    pub open spec fn decodes(&self, rec: Seq<u8>) -> bool {
        &&& self.name@ == decode_utf8(rec.subrange(0, 64))
        &&& self.surface.bits == u32_at(rec, 64)
        &&& self.contents.bits == u32_at(rec, 68)
    }
}

impl TexturesLump {
    /// A textures lump holds a whole number of records, and at least one.
    pub open spec fn size_ok(lump: Seq<u8>) -> bool {
        lump.len() != 0 && whole_records(lump, TEXTURE_LUMP_SIZE)
    }

    /// The error of each record of `lump`, by its index.
    pub open spec fn record_errors(lump: Seq<u8>) -> spec_fn(int) -> Option<Error> {
        |i: int| Texture::record_error(record(lump, TEXTURE_LUMP_SIZE, i))
    }

    /// Why `lump` is rejected, if it is: `BadSize { req: 72 }` for its
    /// length, else `BadFormat` for the first name that is not UTF-8.
    pub open spec fn error(lump: Seq<u8>) -> Option<Error> {
        if !Self::size_ok(lump) {
            Some(Error::BadSize { req: TEXTURE_LUMP_SIZE as u32 })
        } else {
            first_error(0, record_count(lump, TEXTURE_LUMP_SIZE), Self::record_errors(lump))
        }
    }

    /// These textures are what `lump` holds, record by record.
    pub open spec fn decodes(&self, lump: Seq<u8>) -> bool {
        &&& self.textures@.len() == record_count(lump, TEXTURE_LUMP_SIZE)
        &&& forall|i: int|
            0 <= i < self.textures@.len() ==> (#[trigger] self.textures@[i]).decodes(
                record(lump, TEXTURE_LUMP_SIZE, i),
            )
    }

    /// Try to parse the given buffer as a textures lump.
    /// # Format
    /// Each texture is:
    /// string[64] name     Texture name.
    /// int flags           Surface flags.
    /// int contents        Content flags.
    /// Length of textures is total lump size / 72 (64 + 4 + 4)
    pub fn from_lump(lump: &[u8]) -> (r: Result<TexturesLump>)
        ensures
            match r {
                Ok(l) => Self::error(lump@) is None && l.decodes(lump@),
                Err(e) => Self::error(lump@) == Some(e),
            },
    {
        if lump.len() == 0 || lump.len() % TEXTURE_LUMP_SIZE != 0 {
            return Err(Error::BadSize { req: TEXTURE_LUMP_SIZE as u32 });
        }
        let length: usize = lump.len() / TEXTURE_LUMP_SIZE;
        let mut textures: Vec<Texture> = Vec::with_capacity(length);
        let ghost errs = Self::record_errors(lump@);
        let mut n: usize = 0;
        while n < length
            invariant
                n <= length,
                length == lump.len() / TEXTURE_LUMP_SIZE,
                lump.len() % TEXTURE_LUMP_SIZE == 0,
                errs == Self::record_errors(lump@),
                first_error(0, length as int, errs) == first_error(n as int, length as int, errs),
                textures@.len() == n,
                forall|j: int|
                    0 <= j < n ==> (#[trigger] textures@[j]).decodes(
                        record(lump@, TEXTURE_LUMP_SIZE, j),
                    ),
            decreases length - n,
        {
            let offset: usize = n * TEXTURE_LUMP_SIZE;
            let rec = &lump[offset..offset + TEXTURE_LUMP_SIZE];
            let name = match text_of(&rec[0..64]) {
                Some(s) => s,
                None => {
                    return Err(Error::BadFormat);
                },
            };
            textures.push(
                Texture {
                    name,
                    surface: SurfaceFlags::from_bits(read_u32(rec, 64)),
                    contents: ContentsFlags::from_bits(read_u32(rec, 68)),
                },
            );
            n += 1;
        }
        Ok(TexturesLump { textures })
    }
}

/// How a surface behaves; a set of the bits named below.
///
/// Bits without a name are kept as they were read.
#[derive(Debug, Clone, Copy, PartialEq, Eq)]
pub struct SurfaceFlags {
    pub bits: u32,
}

impl SurfaceFlags {
    /// never give falling damage
    pub const NO_DAMAGE: u32 = 0x1;
    /// affects game physics
    pub const SLICK: u32 = 0x2;
    /// lighting from environment map
    pub const SKY: u32 = 0x4;
    /// function as a ladder
    pub const LADDER: u32 = 0x8;
    /// don't make missile explosions
    pub const NO_IMPACT: u32 = 0x10;
    /// don't leave missile marks
    pub const NO_MARKS: u32 = 0x20;
    /// make flesh sounds and effects
    pub const FLESH: u32 = 0x40;
    /// don't generate a drawsurface at all
    pub const NODRAW: u32 = 0x80;
    /// make a primary bsp splitter
    pub const HINT: u32 = 0x01_00;
    /// completely ignore, allowing non-closed brushes
    pub const SKIP: u32 = 0x02_00;
    /// surface doesn't need a lightmap
    pub const NO_LIGHT_MAP: u32 = 0x04_00;
    /// generate lighting info at vertexes
    pub const POINT_LIGHT: u32 = 0x08_00;
    /// clanking footsteps
    pub const METAL_STEPS: u32 = 0x10_00;
    /// no footstep sounds
    pub const NO_STEPS: u32 = 0x20_00;
    /// don't collide against curves with this set
    pub const NON_SOLID: u32 = 0x40_00;
    /// act as a light filter during q3map -light
    pub const LIGHT_FILTER: u32 = 0x80_00;
    /// do per-pixel light shadow casting in q3map
    pub const ALPHA_SHADOW: u32 = 0x01_00_00;
    /// don't dlight even if solid (solid lava, skies)
    pub const NO_DLIGHT: u32 = 0x02_00_00;
    /// leave a dust trail when walking on this surface
    pub const DUST: u32 = 0x04_00_00;

    /// The set with exactly the bits of `bits`, named or not.
    pub fn from_bits(bits: u32) -> (r: SurfaceFlags)
        ensures
            r.bits == bits,
    {
        SurfaceFlags { bits }
    }

    /// The bits of the set.
    pub fn bits(&self) -> (r: u32)
        ensures
            r == self.bits,
    {
        self.bits
    }

    /// Whether every bit of `flags` is in the set.
    pub fn contains(&self, flags: u32) -> (r: bool)
        ensures
            r == (self.bits & flags == flags),
    {
        self.bits & flags == flags
    }

    /// The bits that are in either set.
    pub fn union(self, other: SurfaceFlags) -> (r: SurfaceFlags)
        ensures
            r.bits == self.bits | other.bits,
    {
        SurfaceFlags { bits: self.bits | other.bits }
    }

    /// The bits that are in both sets.
    pub fn intersection(self, other: SurfaceFlags) -> (r: SurfaceFlags)
        ensures
            r.bits == self.bits & other.bits,
    {
        SurfaceFlags { bits: self.bits & other.bits }
    }
}

/// What a volume is filled with; a set of the bits named below.
///
/// Bits without a name are kept as they were read.
#[derive(Debug, Clone, Copy, PartialEq, Eq)]
pub struct ContentsFlags {
    pub bits: u32,
}

impl ContentsFlags {
    /// an eye is never valid in a solid
    pub const SOLID: u32 = 0x1;
    pub const LAVA: u32 = 0x8;
    pub const SLIME: u32 = 0x10;
    pub const WATER: u32 = 0x20;
    pub const FOG: u32 = 0x40;
    pub const NOT_TEAM1: u32 = 0x00_80;
    pub const NOT_TEAM2: u32 = 0x01_00;
    pub const NOT_BOT_CLIP: u32 = 0x02_00;
    pub const AREA_PORTAL: u32 = 0x80_00;
    /// bot specific contents type
    pub const PLAYER_CLIP: u32 = 0x01_00_00;
    /// bot specific contents type
    pub const MONSTER_CLIP: u32 = 0x02_00_00;
    pub const TELEPORTER: u32 = 0x04_00_00;
    pub const JUMP_PAD: u32 = 0x08_00_00;
    pub const CLUSTER_PORTAL: u32 = 0x10_00_00;
    pub const DO_NOT_ENTER: u32 = 0x20_00_00;
    pub const BOT_CLIP: u32 = 0x40_00_00;
    pub const MOVER: u32 = 0x80_00_00;
    /// removed before bsping an entity
    pub const ORIGIN: u32 = 0x01_00_00_00;
    /// should never be on a brush, only in game
    pub const BODY: u32 = 0x02_00_00_00;
    /// brush not used for the bsp
    pub const CORPSE: u32 = 0x04_00_00_00;
    /// brush not used for the bsp
    pub const DETAIL: u32 = 0x08_00_00_00;
    /// brushes used for the bsp
    pub const STRUCTURAL: u32 = 0x10_00_00_00;
    /// don't consume surface fragments inside
    pub const TRANSLUCENT: u32 = 0x20_00_00_00;
    pub const TRIGGER: u32 = 0x40_00_00_00;
    /// don't leave bodies or items (death fog, lava)
    pub const NODROP: u32 = 0x80_00_00_00;

    /// The set with exactly the bits of `bits`, named or not.
    pub fn from_bits(bits: u32) -> (r: ContentsFlags)
        ensures
            r.bits == bits,
    {
        ContentsFlags { bits }
    }

    /// The bits of the set.
    pub fn bits(&self) -> (r: u32)
        ensures
            r == self.bits,
    {
        self.bits
    }

    /// Whether every bit of `flags` is in the set.
    pub fn contains(&self, flags: u32) -> (r: bool)
        ensures
            r == (self.bits & flags == flags),
    {
        self.bits & flags == flags
    }

    /// The bits that are in either set.
    pub fn union(self, other: ContentsFlags) -> (r: ContentsFlags)
        ensures
            r.bits == self.bits | other.bits,
    {
        ContentsFlags { bits: self.bits | other.bits }
    }

    /// The bits that are in both sets.
    pub fn intersection(self, other: ContentsFlags) -> (r: ContentsFlags)
        ensures
            r.bits == self.bits & other.bits,
    {
        ContentsFlags { bits: self.bits & other.bits }
    }
}

} // verus!
