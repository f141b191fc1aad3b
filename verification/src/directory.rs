//! The lump directory located at the start of the file

use crate::lumps::helpers::{read_u32, u32_at};
use crate::types::{Error, Result};
use vstd::prelude::*;

verus! {

/// "IBSP"
pub const MAGIC_HEADER: [u8; 4] = [0x49, 0x42, 0x53, 0x50];

/// The number of directory entries of a Quake 3 file.
pub const ENTRIES: usize = 17;

/// The number of directory entries of a Quake Live file.
pub const ENTRIES_QUAKE_LIVE: usize = 18;

/// The size of magic number, version and seventeen directory entries.
pub const HEADER_LEN: usize = 144;

/// The size of magic number, version and eighteen directory entries.
pub const HEADER_LEN_QUAKE_LIVE: usize = 152;

/// The version of the files distributed with Quake 3.
pub const VERSION_QUAKE3: u32 = 0x2e;

/// The version of Quake Live files, which have one more lump.
pub const VERSION_QUAKE_LIVE: u32 = 0x2f;

/// The index of the entities lump in the directory.
pub const LUMP_ENTITIES: usize = 0;

/// The index of the textures lump in the directory.
pub const LUMP_TEXTURES: usize = 1;

/// The index of the planes lump in the directory.
pub const LUMP_PLANES: usize = 2;

/// The index of the nodes lump in the directory.
pub const LUMP_NODES: usize = 3;

/// The index of the leaves lump in the directory.
pub const LUMP_LEAVES: usize = 4;

/// The index of the leaf faces lump in the directory.
pub const LUMP_LEAF_FACES: usize = 5;

/// The index of the leaf brushes lump in the directory.
pub const LUMP_LEAF_BRUSHES: usize = 6;

/// The index of the models lump in the directory.
pub const LUMP_MODELS: usize = 7;

/// The index of the brushes lump in the directory.
pub const LUMP_BRUSHES: usize = 8;

/// The index of the brush sides lump in the directory.
pub const LUMP_BRUSH_SIDES: usize = 9;

/// The index of the vertices lump in the directory.
pub const LUMP_VERTICES: usize = 10;

/// The index of the meshverts lump in the directory.
pub const LUMP_MESHVERTS: usize = 11;

/// The index of the effects lump in the directory.
pub const LUMP_EFFECTS: usize = 12;

/// The index of the faces lump in the directory.
pub const LUMP_FACES: usize = 13;

/// The index of the lightmaps lump in the directory.
pub const LUMP_LIGHTMAPS: usize = 14;

/// The index of the light volumes lump in the directory.
pub const LUMP_LIGHT_VOLS: usize = 15;

/// The index of the visibility lump in the directory.
pub const LUMP_VISDATA: usize = 16;

/// The index of the advertisements lump in the directory of a Quake Live
/// file.
pub const LUMP_ADVERTISEMENTS: usize = 17;

/// Names an index into the directory in a `BadRef`.
pub const DIRECTORY: &'static str = "Header.dir_entries";

/// The header found at the start of a (Q3) bsp file
#[derive(Debug, Clone)]
pub struct Header {
    pub version: u32,
    /// The seventeen entries that every file has.
    pub dir_entries: Vec<DirEntry>,
}

/// A directory entry, pointing to a lump in the file
#[derive(Debug, Clone, Copy, PartialEq, Eq)]
pub struct DirEntry {
    /// Offset from beginning of file to start of lump
    pub offset: u32,
    /// Length of lump, multiple of 4.
    pub length: u32,
}

impl DirEntry {
    /// Entry `i` of the directory of `buf`, which starts after magic
    /// number and version.
    pub open spec fn at(buf: Seq<u8>, i: int) -> DirEntry {
        DirEntry { offset: u32_at(buf, 8 + 8 * i) as u32, length: u32_at(buf, 12 + 8 * i) as u32 }
    }

    /// Why the entry names no lump of `buf`, if it does not:
    /// `BadSize` with the length of the lump, where the lump would end
    /// after the buffer does.
    pub open spec fn lump_error(self, buf: Seq<u8>) -> Option<Error> {
        if self.offset + self.length > buf.len() {
            Some(Error::BadSize { req: self.length })
        } else {
            None
        }
    }

    /// The lump of `buf` that the entry names.
    pub open spec fn lump(self, buf: Seq<u8>) -> Seq<u8> {
        buf.subrange(self.offset as int, self.offset + self.length)
    }

    /// A lump that an entry names without error lies in the buffer: it
    /// ends where the buffer ends or before, is as long as the entry
    /// says, and its byte `k` is the byte of the buffer at `offset + k`.
    pub proof fn lemma_lump_within(self, buf: Seq<u8>)
        requires
            self.lump_error(buf) is None,
        ensures
            self.offset + self.length <= buf.len(),
            self.lump(buf).len() == self.length,
            forall|k: int|
                0 <= k < self.length ==> #[trigger] self.lump(buf)[k] == buf[self.offset + k],
    {
    }

    /// Two lumps overlap only as their entries say: where byte `i` of one
    /// and byte `j` of the other lie at the same place of the buffer, they
    /// are the same byte, and no byte of a lump lies elsewhere.
    pub proof fn lemma_lumps_overlap_as_entries(self, other: DirEntry, buf: Seq<u8>, i: int, j: int)
        requires
            self.lump_error(buf) is None,
            other.lump_error(buf) is None,
            0 <= i < self.length,
            0 <= j < other.length,
            self.offset + i == other.offset + j,
        ensures
            self.lump(buf)[i] == other.lump(buf)[j],
    {
    }
}

impl Header {
    /// The four bytes that `buf` starts with.
    pub open spec fn magic_of(buf: Seq<u8>) -> [u8; 4] {
        [buf[0], buf[1], buf[2], buf[3]]
    }

    /// Why `buf` has no header, if it has none: `BadSize { req: 17 }`
    /// where it is too short for seventeen entries, else `BadMagic` where
    /// it does not start with "IBSP". The version is not looked at.
    pub open spec fn error(buf: Seq<u8>) -> Option<Error> {
        if buf.len() < HEADER_LEN {
            Some(Error::BadSize { req: ENTRIES as u32 })
        } else if Self::magic_of(buf) != MAGIC_HEADER {
            Some(Error::BadMagic { expected: MAGIC_HEADER, actual: Self::magic_of(buf) })
        } else {
            None
        }
    }

    /// This header is what `buf` starts with: the version after the
    /// magic number, then seventeen entries, whatever the version.
    pub open spec fn decodes(&self, buf: Seq<u8>) -> bool {
        &&& self.version == u32_at(buf, 4)
        &&& self.dir_entries@ =~= Seq::new(ENTRIES as nat, |i: int| DirEntry::at(buf, i))
    }

    /// Whether lump `index` is the one whose entry follows the header in
    /// a Quake Live file, and so is read from the buffer when the lump is
    /// asked for.
    pub open spec fn entry_follows(&self, index: int) -> bool {
        &&& index >= self.dir_entries@.len()
        &&& index == LUMP_ADVERTISEMENTS
        &&& self.version == VERSION_QUAKE_LIVE
    }

    /// The entry of lump `index`: the one that the header holds, or the
    /// one that follows the header in `buf`.
    pub open spec fn entry(&self, buf: Seq<u8>, index: int) -> DirEntry {
        if index < self.dir_entries@.len() {
            self.dir_entries@[index]
        } else {
            DirEntry::at(buf, index)
        }
    }

    /// Why the header gives no lump `index` of `buf`, if it gives none.
    /// For a lump of the header, as its entry says. For the eighteenth
    /// lump of a Quake Live file, `BadSize { req: 18 }` where `buf` is too
    /// short for eighteen entries, else as that entry says. For any other
    /// index, `BadRef`.
    pub open spec fn lump_error(&self, buf: Seq<u8>, index: int) -> Option<Error> {
        if index < self.dir_entries@.len() {
            self.dir_entries@[index].lump_error(buf)
        } else if !self.entry_follows(index) {
            Some(Error::BadRef { loc: DIRECTORY, val: index as usize })
        } else if buf.len() < HEADER_LEN_QUAKE_LIVE {
            Some(Error::BadSize { req: ENTRIES_QUAKE_LIVE as u32 })
        } else {
            DirEntry::at(buf, index).lump_error(buf)
        }
    }

    /// Deserialise from buffer.
    /// # Format
    /// string[4] magic             Magic number. Always "IBSP".
    /// int version                 Version number. 0x2e for the BSP files distributed with Quake 3.
    /// direntry[17] direntries     Lump directory, seventeen entries.
    ///
    /// The version is read and not judged, and nothing after the
    /// seventeenth entry is read.
    pub fn from(v: &[u8]) -> (r: Result<Header>)
        ensures
            match r {
                Ok(header) => Self::error(v@) is None && header.decodes(v@),
                Err(e) => Self::error(v@) == Some(e),
            },
    {
        if v.len() < HEADER_LEN {
            return Err(Error::BadSize { req: ENTRIES as u32 });
        }
        let magic: [u8; 4] = [v[0], v[1], v[2], v[3]];
        if magic[0] != MAGIC_HEADER[0] || magic[1] != MAGIC_HEADER[1] || magic[2] != MAGIC_HEADER[2]
            || magic[3] != MAGIC_HEADER[3] {
            return Err(Error::BadMagic { expected: MAGIC_HEADER, actual: magic });
        }
        assert(magic =~= MAGIC_HEADER);

        let version: u32 = read_u32(v, 4);
        let mut dir_entries: Vec<DirEntry> = Vec::with_capacity(ENTRIES);
        let mut n: usize = 0;
        while n < ENTRIES
            invariant
                n <= ENTRIES,
                HEADER_LEN <= v.len(),
                dir_entries@.len() == n,
                forall|i: int| 0 <= i < n ==> #[trigger] dir_entries@[i] == DirEntry::at(v@, i),
            decreases ENTRIES - n,
        {
            let base: usize = 8 + n * 8;
            dir_entries.push(
                DirEntry { offset: read_u32(v, base), length: read_u32(v, base + 4) },
            );
            n += 1;
        }

        Ok(Header { version, dir_entries })
    }

    /// The bytes of lump `index`: those from the entry's offset on, as
    /// many as its length. They all lie in `buf`, or there is no lump.
    ///
    /// The header holds the entries of the first seventeen lumps. The
    /// entry of the eighteenth lump, which only a Quake Live file has, is
    /// read from `buf` here.
    pub fn get_lump<'a>(&self, buf: &'a [u8], index: usize) -> (r: Result<&'a [u8]>)
        ensures
            match r {
                Ok(lump) => {
                    &&& self.lump_error(buf@, index as int) is None
                    &&& lump@ == self.entry(buf@, index as int).lump(buf@)
                    &&& self.entry(buf@, index as int).offset + lump@.len() <= buf@.len()
                },
                Err(e) => self.lump_error(buf@, index as int) == Some(e),
            },
    {
        let entry = if index < self.dir_entries.len() {
            self.dir_entries[index]
        } else if index == LUMP_ADVERTISEMENTS && self.version == VERSION_QUAKE_LIVE {
            if buf.len() < HEADER_LEN_QUAKE_LIVE {
                return Err(Error::BadSize { req: ENTRIES_QUAKE_LIVE as u32 });
            }
            DirEntry { offset: read_u32(buf, HEADER_LEN), length: read_u32(buf, HEADER_LEN + 4) }
        } else {
            return Err(Error::BadRef { loc: DIRECTORY, val: index });
        };
        let end: u64 = entry.offset as u64 + entry.length as u64;
        if end > buf.len() as u64 {
            return Err(Error::BadSize { req: entry.length });
        }
        Ok(&buf[entry.offset as usize..end as usize])
    }
}

} // verus!
