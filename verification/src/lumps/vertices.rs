//! Parses the vertices and meshverts lumps.

use crate::lumps::helpers::{
    i32_at, read_f32, read_i32, read_vec3, record, record_count, whole_records,
};
use crate::types::{Error, Float32, Result, Vector3, RGBA};
use vstd::prelude::*;

verus! {

/// The size of one vertex
pub const VERTEX_SIZE: usize = 44;

/// The size of one meshvert
pub const MESHVERT_SIZE: usize = 4;

/// A vertex, used to describe a face.
#[derive(Debug, Clone, Copy, PartialEq, Eq)]
pub struct Vertex {
    pub position: Vector3,
    pub tex: TexCoord,
    pub normal: Vector3,
    pub color: RGBA,
}

/// Represents a TexCoord. 0 = surface, 1= lightmap.
#[derive(Debug, Clone, Copy, PartialEq, Eq)]
pub struct TexCoord {
    pub u: [Float32; 2],
    pub v: [Float32; 2],
}

impl TexCoord {
    /// The coordinates stored as four consecutive numbers at
    /// `s[at..at + 16]`.
    pub open spec fn at(s: Seq<u8>, at: int) -> TexCoord {
        TexCoord {
            u: [Float32::at(s, at), Float32::at(s, at + 4)],
            v: [Float32::at(s, at + 8), Float32::at(s, at + 12)],
        }
    }

    /// Internal function. Reads the TexCoord at `data[at..at + 16]`.
    fn from_bytes(data: &[u8], at: usize) -> (r: TexCoord)
        requires
            at + 16 <= data.len(),
        ensures
            r == TexCoord::at(data@, at as int),
    {
        TexCoord {
            u: [read_f32(data, at), read_f32(data, at + 4)],
            v: [read_f32(data, at + 8), read_f32(data, at + 12)],
        }
    }
}

impl Vertex {
    /// The vertex that a record (44 bytes) holds: position, texture
    /// coordinates, normal and colour.
    pub open spec fn of_record(rec: Seq<u8>) -> Vertex {
        Vertex {
            position: Vector3::at(rec, 0),
            tex: TexCoord::at(rec, 12),
            normal: Vector3::at(rec, 28),
            color: RGBA::at(rec, 40),
        }
    }
}

/// The Vertices Lump in a BSP file. Stores a list of vertices.
#[derive(Debug, Clone)]
pub struct VerticesLump {
    pub vertices: Vec<Vertex>,
}

impl VerticesLump {
    /// Why `lump` is rejected, if it is: `BadSize { req: 44 }` for its
    /// length.
    pub open spec fn error(lump: Seq<u8>) -> Option<Error> {
        if whole_records(lump, VERTEX_SIZE) {
            None
        } else {
            Some(Error::BadSize { req: VERTEX_SIZE as u32 })
        }
    }

    /// The vertices that a well-sized lump holds, in order.
    pub open spec fn decoded(lump: Seq<u8>) -> Seq<Vertex> {
        Seq::new(
            record_count(lump, VERTEX_SIZE) as nat,
            |i: int| Vertex::of_record(record(lump, VERTEX_SIZE, i)),
        )
    }

    /// These vertices are what `lump` holds, record by record.
    pub open spec fn decodes(&self, lump: Seq<u8>) -> bool {
        self.vertices@ =~= Self::decoded(lump)
    }

    /// Parse a Vertices Lump from the data in a BSP file.
    pub fn from_lump(lump: &[u8]) -> (r: Result<VerticesLump>)
        ensures
            match r {
                Ok(l) => Self::error(lump@) is None && l.decodes(lump@),
                Err(e) => Self::error(lump@) == Some(e),
            },
    {
        if lump.len() % VERTEX_SIZE != 0 {
            return Err(Error::BadSize { req: VERTEX_SIZE as u32 });
        }
        let length: usize = lump.len() / VERTEX_SIZE;
        let mut vertices: Vec<Vertex> = Vec::with_capacity(length);
        let mut n: usize = 0;
        while n < length
            invariant
                n <= length,
                length == lump.len() / VERTEX_SIZE,
                lump.len() % VERTEX_SIZE == 0,
                vertices@.len() == n,
                forall|i: int|
                    0 <= i < n ==> #[trigger] vertices@[i] == Vertex::of_record(
                        record(lump@, VERTEX_SIZE, i),
                    ),
            decreases length - n,
        {
            let offset: usize = n * VERTEX_SIZE;
            let vertex = &lump[offset..offset + VERTEX_SIZE];
            vertices.push(
                Vertex {
                    position: read_vec3(vertex, 0),
                    tex: TexCoord::from_bytes(vertex, 12),
                    normal: read_vec3(vertex, 28),
                    color: RGBA::from_slice(&vertex[40..44]),
                },
            );
            n += 1;
        }
        Ok(VerticesLump { vertices })
    }
}

/// A vertex offset, used to describe generalised triangle meshes
#[derive(Debug, Clone, Copy, PartialEq, Eq)]
pub struct MeshVert {
    pub offset: i32,
}

/// A list of MeshVerts
#[derive(Debug, Clone)]
pub struct MeshVertsLump {
    pub meshverts: Vec<MeshVert>,
}

impl MeshVertsLump {
    /// Why `lump` is rejected, if it is: `BadSize { req: 4 }` for its
    /// length.
    pub open spec fn error(lump: Seq<u8>) -> Option<Error> {
        if whole_records(lump, MESHVERT_SIZE) {
            None
        } else {
            Some(Error::BadSize { req: MESHVERT_SIZE as u32 })
        }
    }

    /// The meshverts that a well-sized lump holds, in order.
    pub open spec fn decoded(lump: Seq<u8>) -> Seq<MeshVert> {
        Seq::new(
            record_count(lump, MESHVERT_SIZE) as nat,
            |i: int| MeshVert { offset: i32_at(lump, 4 * i) as i32 },
        )
    }

    /// These meshverts are what `lump` holds, one signed integer each.
    pub open spec fn decodes(&self, lump: Seq<u8>) -> bool {
        self.meshverts@ =~= Self::decoded(lump)
    }

    /// Parse the given lump as a list of MeshVerts.
    pub fn from_lump(lump: &[u8]) -> (r: Result<MeshVertsLump>)
        ensures
            match r {
                Ok(l) => Self::error(lump@) is None && l.decodes(lump@),
                Err(e) => Self::error(lump@) == Some(e),
            },
    {
        if lump.len() % MESHVERT_SIZE != 0 {
            return Err(Error::BadSize { req: MESHVERT_SIZE as u32 });
        }
        let length: usize = lump.len() / MESHVERT_SIZE;
        let mut meshverts: Vec<MeshVert> = Vec::with_capacity(length);
        let mut n: usize = 0;
        while n < length
            invariant
                n <= length,
                length == lump.len() / MESHVERT_SIZE,
                lump.len() % MESHVERT_SIZE == 0,
                meshverts@.len() == n,
                forall|i: int|
                    0 <= i < n ==> (#[trigger] meshverts@[i]).offset == i32_at(lump@, 4 * i),
            decreases length - n,
        {
            meshverts.push(MeshVert { offset: read_i32(lump, n * MESHVERT_SIZE) });
            n += 1;
        }
        Ok(MeshVertsLump { meshverts })
    }
}

} // verus!
