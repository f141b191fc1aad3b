//! Parses the faces lump: the surfaces that are drawn.

use crate::lumps::effects::EffectsLump;
use crate::lumps::helpers::{
    first_error, i32_at, index_error, lemma_first_error_none, range_error, range_of, read_i32,
    read_index, read_ivec2, read_range, read_vec3, record, record_count, whole_records,
};
use crate::lumps::light_maps::LightMapsLump;
use crate::lumps::textures::TexturesLump;
use crate::lumps::vertices::{MeshVertsLump, VerticesLump};
use crate::types::{Error, IVector2, Result, Vector3};
use core::ops::Range;
use vstd::prelude::*;

verus! {

/// The size of one face record.
pub const FACE_SIZE: usize = 104;

/// The word that stands for "none" where a face may have no effect or
/// no lightmap: all its bits are set.
pub const NO_INDEX: i32 = -1;

/// Names the texture index of a face in a `BadRef`.
pub const FACE_TEXTURE: &'static str = "Face.texture_idx";

/// Names the effect index of a face in a `BadRef`.
pub const FACE_EFFECT: &'static str = "Face.effect_idx";

/// Names the run of vertices of a face in a `BadRef`.
pub const FACE_VERTICES: &'static str = "Face.vertices_idx";

/// Names the run of meshverts of a face in a `BadRef`.
pub const FACE_MESHVERTS: &'static str = "Face.meshverts_idx";

/// Names the lightmap index of a face in a `BadRef`.
pub const FACE_LIGHTMAP: &'static str = "Face.lightmap_idx";

/// The faces lump from a BSP file.
/// Found at lump index 13 in a q3 bsp.
#[derive(Debug, Clone)]
pub struct FaceLump {
    pub faces: Vec<Face>,
}

/// What kind of surface a face is; stored as a number from 1 to 4.
#[derive(Debug, Clone, Copy, PartialEq, Eq)]
pub enum FaceType {
    Polygon,
    Patch,
    Mesh,
    Billboard,
}

/// One surface: what it points at in other lumps, and how its lightmap
/// lies in the world.
#[derive(Debug, PartialEq)]
pub struct Face {
    pub face_type: FaceType,
    pub texture_idx: usize,
    pub effect_idx: Option<usize>,
    pub lightmap_idx: Option<usize>,
    pub vertices_idx: Range<usize>,
    pub meshverts_idx: Range<usize>,
    pub map_start: IVector2,
    pub map_size: IVector2,
    pub map_origin: Vector3,
    pub map_vecs: [Vector3; 2],
    pub normal: Vector3,
    pub size: IVector2,
}

/// The sizes of the lumps that faces point into.
pub struct FaceTargets {
    pub n_textures: int,
    pub n_effects: int,
    pub n_vertices: int,
    pub n_meshverts: int,
    pub n_lightmaps: int,
}

impl FaceTargets {
    /// Each size is one that a lump in memory can have.
    pub open spec fn fit(self) -> bool {
        &&& 0 <= self.n_textures <= usize::MAX
        &&& 0 <= self.n_effects <= usize::MAX
        &&& 0 <= self.n_vertices <= usize::MAX
        &&& 0 <= self.n_meshverts <= usize::MAX
        &&& 0 <= self.n_lightmaps <= usize::MAX
    }
}

impl FaceType {
    /// The face type that the number `tag` stands for, if any: 1 to 4.
    pub open spec fn of_tag(tag: int) -> Option<FaceType> {
        if tag == 1 {
            Some(FaceType::Polygon)
        } else if tag == 2 {
            Some(FaceType::Patch)
        } else if tag == 3 {
            Some(FaceType::Mesh)
        } else if tag == 4 {
            Some(FaceType::Billboard)
        } else {
            None
        }
    }

    /// The face type that the number `tag` stands for, if any.
    pub fn from_tag(tag: i32) -> (r: Option<FaceType>)
        ensures
            r == Self::of_tag(tag as int),
    {
        match tag {
            1 => Some(FaceType::Polygon),
            2 => Some(FaceType::Patch),
            3 => Some(FaceType::Mesh),
            4 => Some(FaceType::Billboard),
            _ => None,
        }
    }
}

impl Clone for Face {
    fn clone(&self) -> (r: Self)
        ensures
            r == *self,
    {
        Face {
            face_type: self.face_type,
            texture_idx: self.texture_idx,
            effect_idx: self.effect_idx,
            lightmap_idx: self.lightmap_idx,
            vertices_idx: self.vertices_idx.start..self.vertices_idx.end,
            meshverts_idx: self.meshverts_idx.start..self.meshverts_idx.end,
            map_start: self.map_start,
            map_size: self.map_size,
            map_origin: self.map_origin,
            map_vecs: self.map_vecs,
            normal: self.normal,
            size: self.size,
        }
    }
}

impl Face {
    /// Every index and run of the face lies in its lump.
    pub open spec fn refs_valid(&self, targets: FaceTargets) -> bool {
        &&& self.texture_idx < targets.n_textures
        &&& self.effect_idx matches Some(idx) ==> idx < targets.n_effects
        &&& self.lightmap_idx matches Some(idx) ==> idx < targets.n_lightmaps
        &&& self.vertices_idx.start <= self.vertices_idx.end <= targets.n_vertices
        &&& self.meshverts_idx.start <= self.meshverts_idx.end <= targets.n_meshverts
    }

    /// An index that may be absent: `None` for the word that stands for
    /// "none".
    pub open spec fn optional_index(word: int) -> Option<usize> {
        if word == NO_INDEX {
            None
        } else {
            Some(word as usize)
        }
    }

    /// Why the signed `word` is neither "none" nor an index into a lump
    /// of `len` records, if it is neither.
    pub open spec fn optional_index_error(word: int, len: int, loc: &'static str) -> Option<
        Error,
    > {
        if word == NO_INDEX {
            None
        } else {
            index_error(word, len, loc)
        }
    }

    /// Internal function. Reads an index that may be absent.
    fn read_optional_index(data: &[u8], at: usize, len: usize, loc: &'static str) -> (r: Result<
        Option<usize>,
    >)
        requires
            at + 4 <= data.len(),
        ensures
            match r {
                Ok(index) => {
                    &&& Self::optional_index_error(
                        i32_at(data@, at as int),
                        len as int,
                        loc,
                    ) is None
                    &&& index == Self::optional_index(i32_at(data@, at as int))
                },
                Err(e) => Self::optional_index_error(i32_at(data@, at as int), len as int, loc)
                    == Some(e),
            },
    {
        if read_i32(data, at) == NO_INDEX {
            Ok(None)
        } else {
            Ok(Some(read_index(data, at, len, loc)?))
        }
    }

    /// Why a record (104 bytes) is not a face. The fields are checked in
    /// the order in which they are stored: texture, effect, face type,
    /// vertices, meshverts, lightmap.
    pub open spec fn record_error(rec: Seq<u8>, targets: FaceTargets) -> Option<Error> {
        let texture = index_error(i32_at(rec, 0), targets.n_textures, FACE_TEXTURE);
        let effect = Self::optional_index_error(i32_at(rec, 4), targets.n_effects, FACE_EFFECT);
        let vertices = range_error(
            i32_at(rec, 12),
            i32_at(rec, 16),
            targets.n_vertices,
            FACE_VERTICES,
        );
        let meshverts = range_error(
            i32_at(rec, 20),
            i32_at(rec, 24),
            targets.n_meshverts,
            FACE_MESHVERTS,
        );
        if texture is Some {
            texture
        } else if effect is Some {
            effect
        } else if FaceType::of_tag(i32_at(rec, 8)) is None {
            Some(Error::BadFormat)
        } else if vertices is Some {
            vertices
        } else if meshverts is Some {
            meshverts
        } else {
            Self::optional_index_error(i32_at(rec, 28), targets.n_lightmaps, FACE_LIGHTMAP)
        }
    }

    /// The face that a record (104 bytes) without error holds.
    pub open spec fn of_record(rec: Seq<u8>) -> Face {
        Face {
            face_type: FaceType::of_tag(i32_at(rec, 8))->0,
            texture_idx: i32_at(rec, 0) as usize,
            effect_idx: Self::optional_index(i32_at(rec, 4)),
            lightmap_idx: Self::optional_index(i32_at(rec, 28)),
            vertices_idx: range_of(i32_at(rec, 12), i32_at(rec, 16)),
            meshverts_idx: range_of(i32_at(rec, 20), i32_at(rec, 24)),
            map_start: IVector2::at(rec, 32),
            map_size: IVector2::at(rec, 40),
            map_origin: Vector3::at(rec, 48),
            map_vecs: [Vector3::at(rec, 60), Vector3::at(rec, 72)],
            normal: Vector3::at(rec, 84),
            size: IVector2::at(rec, 96),
        }
    }

    /// The face that a record without error holds points into its lumps.
    pub proof fn lemma_decoded_refs_valid(rec: Seq<u8>, targets: FaceTargets)
        requires
            targets.fit(),
            Self::record_error(rec, targets) is None,
        ensures
            Self::of_record(rec).refs_valid(targets),
    {
    }

    /// The sizes of the lumps that `from_slice` checks a face against.
    pub open spec fn targets_of(
        textures: &TexturesLump,
        effects: &EffectsLump,
        vertices_lump: &VerticesLump,
        meshverts_lump: &MeshVertsLump,
        lightmaps: &LightMapsLump,
    ) -> FaceTargets {
        FaceTargets {
            n_textures: textures.textures@.len() as int,
            n_effects: effects.effects@.len() as int,
            n_vertices: vertices_lump.vertices@.len() as int,
            n_meshverts: meshverts_lump.meshverts@.len() as int,
            n_lightmaps: lightmaps.maps@.len() as int,
        }
    }

    /// Parse one face record of exactly `FACE_SIZE` bytes, checking what
    /// it points at against the lumps given.
    pub fn from_slice(
        data: &[u8],
        textures: &TexturesLump,
        effects: &EffectsLump,
        vertices_lump: &VerticesLump,
        meshverts_lump: &MeshVertsLump,
        lightmaps: &LightMapsLump,
    ) -> (r: Result<Face>)
        requires
            data.len() == FACE_SIZE,
        ensures
            match r {
                Ok(face) => {
                    &&& Self::record_error(
                        data@,
                        Self::targets_of(
                            textures,
                            effects,
                            vertices_lump,
                            meshverts_lump,
                            lightmaps,
                        ),
                    ) is None
                    &&& face == Self::of_record(data@)
                    &&& face.refs_valid(
                        Self::targets_of(
                            textures,
                            effects,
                            vertices_lump,
                            meshverts_lump,
                            lightmaps,
                        ),
                    )
                },
                Err(e) => Self::record_error(
                    data@,
                    Self::targets_of(textures, effects, vertices_lump, meshverts_lump, lightmaps),
                ) == Some(e),
            },
    {
        // texture
        let texture_idx = read_index(data, 0, textures.textures.len(), FACE_TEXTURE)?;

        // effects
        let effect_idx = Face::read_optional_index(data, 4, effects.effects.len(), FACE_EFFECT)?;

        // face type
        let face_type = match FaceType::from_tag(read_i32(data, 8)) {
            Some(face_type) => face_type,
            None => {
                return Err(Error::BadFormat);
            },
        };

        // vertices
        let vertices_idx = read_range(data, 12, vertices_lump.vertices.len(), FACE_VERTICES)?;

        // meshverts
        let meshverts_idx = read_range(
            data,
            20,
            meshverts_lump.meshverts.len(),
            FACE_MESHVERTS,
        )?;

        // lightmap
        let lightmap_idx = Face::read_optional_index(
            data,
            28,
            lightmaps.maps.len(),
            FACE_LIGHTMAP,
        )?;

        // map properties
        let map_start = read_ivec2(data, 32);
        let map_size = read_ivec2(data, 40);
        let map_origin = read_vec3(data, 48);
        let map_vecs = [read_vec3(data, 60), read_vec3(data, 72)];

        // normal & size
        let normal = read_vec3(data, 84);
        let size = read_ivec2(data, 96);

        Ok(
            Face {
                face_type,
                texture_idx,
                effect_idx,
                vertices_idx,
                meshverts_idx,
                lightmap_idx,
                map_start,
                map_size,
                map_origin,
                map_vecs,
                normal,
                size,
            },
        )
    }
}

impl FaceLump {
    /// Every index and run of every face lies in its lump.
    pub open spec fn refs_valid(&self, targets: FaceTargets) -> bool {
        forall|i: int|
            0 <= i < self.faces@.len() ==> (#[trigger] self.faces@[i]).refs_valid(targets)
    }

    /// The error of each record of `lump`, by its index.
    pub open spec fn record_errors(lump: Seq<u8>, targets: FaceTargets) -> spec_fn(int) -> Option<
        Error,
    > {
        |i: int| Face::record_error(record(lump, FACE_SIZE, i), targets)
    }

    /// Why `lump` is rejected, if it is: `BadSize { req: 104 }` for its
    /// length, else the error of the first record that has one.
    pub open spec fn error(lump: Seq<u8>, targets: FaceTargets) -> Option<Error> {
        if !whole_records(lump, FACE_SIZE) {
            Some(Error::BadSize { req: FACE_SIZE as u32 })
        } else {
            first_error(0, record_count(lump, FACE_SIZE), Self::record_errors(lump, targets))
        }
    }

    /// The faces that a lump without error holds, in order.
    pub open spec fn decoded(lump: Seq<u8>) -> Seq<Face> {
        Seq::new(
            record_count(lump, FACE_SIZE) as nat,
            |i: int| Face::of_record(record(lump, FACE_SIZE, i)),
        )
    }

    /// These faces are what `lump` holds, record by record.
    pub open spec fn decodes(&self, lump: Seq<u8>) -> bool {
        self.faces@ =~= Self::decoded(lump)
    }

    /// Faces that a lump without error holds point into their lumps:
    /// checking them again after decoding finds nothing.
    pub proof fn lemma_decoded_refs_valid(&self, lump: Seq<u8>, targets: FaceTargets)
        requires
            targets.fit(),
            Self::error(lump, targets) is None,
            self.decodes(lump),
        ensures
            self.refs_valid(targets),
    {
        lemma_first_error_none(
            0,
            record_count(lump, FACE_SIZE),
            Self::record_errors(lump, targets),
        );
        assert forall|i: int| 0 <= i < self.faces@.len() implies
            (#[trigger] self.faces@[i]).refs_valid(targets)
        by {
            assert(Self::record_errors(lump, targets)(i) is None);
            Face::lemma_decoded_refs_valid(record(lump, FACE_SIZE, i), targets);
        }
    }

    /// Parse the faces lump, checking what each face points at against
    /// the lumps given.
    pub fn from_lump(
        data: &[u8],
        textures: &TexturesLump,
        effects: &EffectsLump,
        vertices_lump: &VerticesLump,
        meshverts_lump: &MeshVertsLump,
        light_maps: &LightMapsLump,
    ) -> (r: Result<FaceLump>)
        ensures
            match r {
                Ok(l) => {
                    &&& Self::error(
                        data@,
                        Face::targets_of(
                            textures,
                            effects,
                            vertices_lump,
                            meshverts_lump,
                            light_maps,
                        ),
                    ) is None
                    &&& l.decodes(data@)
                    &&& l.refs_valid(
                        Face::targets_of(
                            textures,
                            effects,
                            vertices_lump,
                            meshverts_lump,
                            light_maps,
                        ),
                    )
                },
                Err(e) => Self::error(
                    data@,
                    Face::targets_of(textures, effects, vertices_lump, meshverts_lump, light_maps),
                ) == Some(e),
            },
    {
        if data.len() % FACE_SIZE != 0 {
            return Err(Error::BadSize { req: FACE_SIZE as u32 });
        }
        let length: usize = data.len() / FACE_SIZE;
        let ghost targets = Face::targets_of(
            textures,
            effects,
            vertices_lump,
            meshverts_lump,
            light_maps,
        );
        let ghost errs = Self::record_errors(data@, targets);

        let mut faces: Vec<Face> = Vec::with_capacity(length);
        let mut n: usize = 0;
        while n < length
            invariant
                n <= length,
                length == data.len() / FACE_SIZE,
                data.len() % FACE_SIZE == 0,
                targets == Face::targets_of(
                    textures,
                    effects,
                    vertices_lump,
                    meshverts_lump,
                    light_maps,
                ),
                errs == Self::record_errors(data@, targets),
                first_error(0, length as int, errs) == first_error(n as int, length as int, errs),
                faces@.len() == n,
                forall|i: int|
                    0 <= i < n ==> #[trigger] faces@[i] == Face::of_record(
                        record(data@, FACE_SIZE, i),
                    ),
            decreases length - n,
        {
            let offset: usize = n * FACE_SIZE;
            let face = match Face::from_slice(
                &data[offset..offset + FACE_SIZE],
                textures,
                effects,
                vertices_lump,
                meshverts_lump,
                light_maps,
            ) {
                Ok(face) => face,
                Err(e) => {
                    return Err(e);
                },
            };
            faces.push(face);
            n += 1;
        }

        let faces = FaceLump { faces };
        proof {
            assert(targets.fit()) by {
                assert(textures.textures.len() == targets.n_textures);
                assert(effects.effects.len() == targets.n_effects);
                assert(vertices_lump.vertices.len() == targets.n_vertices);
                assert(meshverts_lump.meshverts.len() == targets.n_meshverts);
                assert(light_maps.maps.len() == targets.n_lightmaps);
            }
            faces.lemma_decoded_refs_valid(data@, targets);
        }
        Ok(faces)
    }
}

} // verus!
