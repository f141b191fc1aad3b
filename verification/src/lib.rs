//! Decoder for Quake 3 (IBSP, version 0x2e) and Quake Live (0x2f) map files.
//!
//! A file is a directory of byte ranges, the lumps. Each lump has a decoder
//! here; lumps that refer to other lumps by index are checked against them
//! while they are decoded, so every index in a decoded file is in range.

pub mod directory;
pub mod lumps;
pub mod types;

use crate::directory::{
    DirEntry, Header, ENTRIES_QUAKE_LIVE, HEADER_LEN_QUAKE_LIVE, LUMP_ADVERTISEMENTS,
    LUMP_BRUSHES, LUMP_BRUSH_SIDES, LUMP_EFFECTS, LUMP_ENTITIES, LUMP_FACES, LUMP_LEAF_BRUSHES,
    LUMP_LEAF_FACES, LUMP_LEAVES, LUMP_LIGHTMAPS, LUMP_LIGHT_VOLS, LUMP_MESHVERTS, LUMP_MODELS,
    LUMP_NODES, LUMP_PLANES, LUMP_TEXTURES, LUMP_VERTICES, LUMP_VISDATA, VERSION_QUAKE3,
    VERSION_QUAKE_LIVE,
};
use crate::lumps::brushes::BRUSH_SIZE;
use crate::lumps::effects::EFFECT_SIZE;
use crate::lumps::faces::{FaceTargets, FACE_SIZE};
use crate::lumps::helpers::{record_count, u32_at};
use crate::lumps::light_maps::LIGHTMAP_SIZE;
use crate::lumps::planes::PLANE_PAIR_SIZE;
use crate::lumps::textures::TEXTURE_LUMP_SIZE;
use crate::lumps::tree::{TreeLumps, NODE_SIZE};
use crate::lumps::vertices::{MESHVERT_SIZE, VERTEX_SIZE};
use crate::lumps::{
    AdvertisementsLump, BSPTree, BrushesLump, EffectsLump, EntitiesLump, FaceLump, LightMapsLump,
    LightVolsLump, MeshVertsLump, ModelsLump, PlanesLump, TexturesLump, VerticesLump, VisDataLump,
};
use crate::types::{Error, Result};
use vstd::prelude::*;

verus! {

/// Represents a parsed BSP file.
#[derive(Debug, Clone)]
pub struct BSPFile {
    pub directory: Header,
    pub entities: EntitiesLump,
    pub textures: TexturesLump,
    pub planes: PlanesLump,
    pub light_vols: LightVolsLump,
    pub brushes: BrushesLump,
    pub vertices: VerticesLump,
    pub meshverts: MeshVertsLump,
    pub light_maps: LightMapsLump,
    pub effects: EffectsLump,
    pub faces: FaceLump,
    pub tree: BSPTree,
    pub visdata: VisDataLump,
    pub models: ModelsLump,
    /// Only present for Quake live maps (IBSP47)
    pub advertisements: Option<AdvertisementsLump>,
}

impl BSPFile {
    /// Lump `index` of the file `buf`, as its directory places it.
    pub open spec fn lump(buf: Seq<u8>, index: usize) -> Seq<u8> {
        DirEntry::at(buf, index as int).lump(buf)
    }

    /// Why lump `index` of the file `buf` does not lie in it, if it does
    /// not. The entry of the advertisements lump follows the header, so
    /// the file must be long enough for it: `BadSize { req: 18 }` where it
    /// is not.
    pub open spec fn lump_error(buf: Seq<u8>, index: usize) -> Option<Error> {
        if index == LUMP_ADVERTISEMENTS && buf.len() < HEADER_LEN_QUAKE_LIVE {
            Some(Error::BadSize { req: ENTRIES_QUAKE_LIVE as u32 })
        } else {
            DirEntry::at(buf, index as int).lump_error(buf)
        }
    }

    /// The sizes of the lumps that the faces of the file point into.
    pub open spec fn face_targets(buf: Seq<u8>) -> FaceTargets {
        FaceTargets {
            n_textures: record_count(Self::lump(buf, LUMP_TEXTURES), TEXTURE_LUMP_SIZE),
            n_effects: record_count(Self::lump(buf, LUMP_EFFECTS), EFFECT_SIZE),
            n_vertices: record_count(Self::lump(buf, LUMP_VERTICES), VERTEX_SIZE),
            n_meshverts: record_count(Self::lump(buf, LUMP_MESHVERTS), MESHVERT_SIZE),
            n_lightmaps: record_count(Self::lump(buf, LUMP_LIGHTMAPS), LIGHTMAP_SIZE),
        }
    }

    /// The lumps that hold the tree of the file, and the sizes of the
    /// lumps that the tree points into.
    pub open spec fn tree_lumps(buf: Seq<u8>) -> TreeLumps {
        TreeLumps {
            nodes: Self::lump(buf, LUMP_NODES),
            leaves: Self::lump(buf, LUMP_LEAVES),
            leaf_faces: Self::lump(buf, LUMP_LEAF_FACES),
            leaf_brushes: Self::lump(buf, LUMP_LEAF_BRUSHES),
            n_faces: record_count(Self::lump(buf, LUMP_FACES), FACE_SIZE),
            n_brushes: record_count(Self::lump(buf, LUMP_BRUSHES), BRUSH_SIZE),
            n_planes: record_count(Self::lump(buf, LUMP_PLANES), PLANE_PAIR_SIZE),
        }
    }

    /// Why the lumps without references are rejected, if one is. They are
    /// read in this order: entities, textures, planes, vertices,
    /// meshverts, lightmaps, light volumes, visibility.
    pub open spec fn leaf_lumps_error(buf: Seq<u8>) -> Option<Error> {
        if Self::lump_error(buf, LUMP_ENTITIES) is Some {
            Self::lump_error(buf, LUMP_ENTITIES)
        } else if EntitiesLump::error(Self::lump(buf, LUMP_ENTITIES)) is Some {
            EntitiesLump::error(Self::lump(buf, LUMP_ENTITIES))
        } else if Self::lump_error(buf, LUMP_TEXTURES) is Some {
            Self::lump_error(buf, LUMP_TEXTURES)
        } else if TexturesLump::error(Self::lump(buf, LUMP_TEXTURES)) is Some {
            TexturesLump::error(Self::lump(buf, LUMP_TEXTURES))
        } else if Self::lump_error(buf, LUMP_PLANES) is Some {
            Self::lump_error(buf, LUMP_PLANES)
        } else if PlanesLump::error(Self::lump(buf, LUMP_PLANES)) is Some {
            PlanesLump::error(Self::lump(buf, LUMP_PLANES))
        } else if Self::lump_error(buf, LUMP_VERTICES) is Some {
            Self::lump_error(buf, LUMP_VERTICES)
        } else if VerticesLump::error(Self::lump(buf, LUMP_VERTICES)) is Some {
            VerticesLump::error(Self::lump(buf, LUMP_VERTICES))
        } else if Self::lump_error(buf, LUMP_MESHVERTS) is Some {
            Self::lump_error(buf, LUMP_MESHVERTS)
        } else if MeshVertsLump::error(Self::lump(buf, LUMP_MESHVERTS)) is Some {
            MeshVertsLump::error(Self::lump(buf, LUMP_MESHVERTS))
        } else if Self::lump_error(buf, LUMP_LIGHTMAPS) is Some {
            Self::lump_error(buf, LUMP_LIGHTMAPS)
        } else if LightMapsLump::error(Self::lump(buf, LUMP_LIGHTMAPS)) is Some {
            LightMapsLump::error(Self::lump(buf, LUMP_LIGHTMAPS))
        } else if Self::lump_error(buf, LUMP_LIGHT_VOLS) is Some {
            Self::lump_error(buf, LUMP_LIGHT_VOLS)
        } else if LightVolsLump::error(Self::lump(buf, LUMP_LIGHT_VOLS)) is Some {
            LightVolsLump::error(Self::lump(buf, LUMP_LIGHT_VOLS))
        } else if Self::lump_error(buf, LUMP_VISDATA) is Some {
            Self::lump_error(buf, LUMP_VISDATA)
        } else {
            VisDataLump::error(Self::lump(buf, LUMP_VISDATA))
        }
    }

    /// Why the lumps with references are rejected, if one is, given that
    /// those without are not. They are read in this order: brushes with
    /// their sides, effects, faces, the tree, models, and in a Quake Live
    /// file the advertisements.
    pub open spec fn referential_lumps_error(buf: Seq<u8>) -> Option<Error> {
        let brushes = BrushesLump::error(
            Self::lump(buf, LUMP_BRUSHES),
            Self::lump(buf, LUMP_BRUSH_SIDES),
            record_count(Self::lump(buf, LUMP_TEXTURES), TEXTURE_LUMP_SIZE),
            record_count(Self::lump(buf, LUMP_PLANES), PLANE_PAIR_SIZE),
        );
        let effects = EffectsLump::error(
            Self::lump(buf, LUMP_EFFECTS),
            record_count(Self::lump(buf, LUMP_BRUSHES), BRUSH_SIZE),
        );
        let faces = FaceLump::error(Self::lump(buf, LUMP_FACES), Self::face_targets(buf));
        let models = ModelsLump::error(
            Self::lump(buf, LUMP_MODELS),
            record_count(Self::lump(buf, LUMP_FACES), FACE_SIZE),
            record_count(Self::lump(buf, LUMP_BRUSHES), BRUSH_SIZE),
        );
        if Self::lump_error(buf, LUMP_BRUSHES) is Some {
            Self::lump_error(buf, LUMP_BRUSHES)
        } else if Self::lump_error(buf, LUMP_BRUSH_SIDES) is Some {
            Self::lump_error(buf, LUMP_BRUSH_SIDES)
        } else if brushes is Some {
            brushes
        } else if Self::lump_error(buf, LUMP_EFFECTS) is Some {
            Self::lump_error(buf, LUMP_EFFECTS)
        } else if effects is Some {
            effects
        } else if Self::lump_error(buf, LUMP_FACES) is Some {
            Self::lump_error(buf, LUMP_FACES)
        } else if faces is Some {
            faces
        } else if Self::lump_error(buf, LUMP_NODES) is Some {
            Self::lump_error(buf, LUMP_NODES)
        } else if Self::lump_error(buf, LUMP_LEAVES) is Some {
            Self::lump_error(buf, LUMP_LEAVES)
        } else if Self::lump_error(buf, LUMP_LEAF_FACES) is Some {
            Self::lump_error(buf, LUMP_LEAF_FACES)
        } else if Self::lump_error(buf, LUMP_LEAF_BRUSHES) is Some {
            Self::lump_error(buf, LUMP_LEAF_BRUSHES)
        } else if BSPTree::error(Self::tree_lumps(buf)) is Some {
            BSPTree::error(Self::tree_lumps(buf))
        } else if Self::lump_error(buf, LUMP_MODELS) is Some {
            Self::lump_error(buf, LUMP_MODELS)
        } else if models is Some {
            models
        } else if u32_at(buf, 4) != VERSION_QUAKE_LIVE {
            None
        } else if Self::lump_error(buf, LUMP_ADVERTISEMENTS) is Some {
            Self::lump_error(buf, LUMP_ADVERTISEMENTS)
        } else {
            AdvertisementsLump::error(Self::lump(buf, LUMP_ADVERTISEMENTS))
        }
    }

    /// Why `buf` is rejected, if it is: for its header; as `Unsupported`
    /// for a version that is neither 0x2e nor 0x2f; or for the first lump
    /// that does not lie in the file or is rejected by its decoder.
    pub open spec fn error(buf: Seq<u8>) -> Option<Error> {
        if Header::error(buf) is Some {
            Header::error(buf)
        } else if u32_at(buf, 4) != VERSION_QUAKE3 && u32_at(buf, 4) != VERSION_QUAKE_LIVE {
            Some(Error::Unsupported { version: u32_at(buf, 4) as u32 })
        } else if Self::leaf_lumps_error(buf) is Some {
            Self::leaf_lumps_error(buf)
        } else {
            Self::referential_lumps_error(buf)
        }
    }

    /// Header and lumps are what `buf` holds.
    pub open spec fn decodes(&self, buf: Seq<u8>) -> bool {
        &&& self.directory.decodes(buf)
        &&& self.entities.decodes(Self::lump(buf, LUMP_ENTITIES))
        &&& self.textures.decodes(Self::lump(buf, LUMP_TEXTURES))
        &&& self.planes.decodes(Self::lump(buf, LUMP_PLANES))
        &&& self.vertices.decodes(Self::lump(buf, LUMP_VERTICES))
        &&& self.meshverts.decodes(Self::lump(buf, LUMP_MESHVERTS))
        &&& self.light_maps.decodes(Self::lump(buf, LUMP_LIGHTMAPS))
        &&& self.light_vols.decodes(Self::lump(buf, LUMP_LIGHT_VOLS))
        &&& self.visdata.decodes(Self::lump(buf, LUMP_VISDATA))
        &&& self.brushes.decodes(Self::lump(buf, LUMP_BRUSHES), Self::lump(buf, LUMP_BRUSH_SIDES))
        &&& self.effects.decodes(Self::lump(buf, LUMP_EFFECTS))
        &&& self.faces.decodes(Self::lump(buf, LUMP_FACES))
        &&& self.tree.decodes(Self::tree_lumps(buf))
        &&& self.models.decodes(Self::lump(buf, LUMP_MODELS))
        &&& match self.advertisements {
            Some(advertisements) => self.directory.version == VERSION_QUAKE_LIVE
                && advertisements.decodes(Self::lump(buf, LUMP_ADVERTISEMENTS)),
            None => self.directory.version == VERSION_QUAKE3,
        }
    }

    /// Every index that a lump holds points into the lump that it is an
    /// index of, and the tree is a tree.
    pub open spec fn is_well_formed(&self) -> bool {
        &&& self.entities.is_well_formed()
        &&& self.brushes.refs_valid(
            self.textures.textures@.len() as int,
            self.planes.planes@.len() as int,
        )
        &&& self.effects.refs_valid(self.brushes.brushes@.len() as int)
        &&& self.faces.refs_valid(
            FaceTargets {
                n_textures: self.textures.textures@.len() as int,
                n_effects: self.effects.effects@.len() as int,
                n_vertices: self.vertices.vertices@.len() as int,
                n_meshverts: self.meshverts.meshverts@.len() as int,
                n_lightmaps: self.light_maps.maps@.len() as int,
            },
        )
        &&& self.tree.root.is_well_formed()
        &&& self.tree.root.refs_valid(
            self.faces.faces@.len() as int,
            self.brushes.brushes@.len() as int,
            self.planes.planes@.len() as int,
        )
        &&& self.models.refs_valid(
            self.faces.faces@.len() as int,
            self.brushes.brushes@.len() as int,
        )
    }

    /// A file that was decoded without error points into itself: checking
    /// its indices again after decoding finds nothing.
    pub proof fn lemma_decoded_is_well_formed(&self, buf: Seq<u8>)
        requires
            Self::error(buf) is None,
            self.decodes(buf),
        ensures
            self.is_well_formed(),
    {
        let n_textures = self.textures.textures@.len() as int;
        let n_planes = self.planes.planes@.len() as int;
        let n_brushes = self.brushes.brushes@.len() as int;
        let n_faces = self.faces.faces@.len() as int;
        assert(self.textures.textures.len() == n_textures);
        assert(self.effects.effects.len() == self.effects.effects@.len());
        assert(self.vertices.vertices.len() == self.vertices.vertices@.len());
        assert(self.meshverts.meshverts.len() == self.meshverts.meshverts@.len());
        assert(self.light_maps.maps.len() == self.light_maps.maps@.len());
        assert(self.faces.faces.len() == n_faces);
        assert(self.brushes.brushes.len() == n_brushes);
        self.entities.lemma_decoded_is_well_formed(Self::lump(buf, LUMP_ENTITIES));
        self.brushes.lemma_decoded_refs_valid(
            Self::lump(buf, LUMP_BRUSHES),
            Self::lump(buf, LUMP_BRUSH_SIDES),
            n_textures,
            n_planes,
        );
        self.effects.lemma_decoded_refs_valid(Self::lump(buf, LUMP_EFFECTS), n_brushes);
        self.faces.lemma_decoded_refs_valid(Self::lump(buf, LUMP_FACES), Self::face_targets(buf));
        Self::tree_lumps(buf).lemma_decoded_is_well_formed(
            0,
            record_count(Self::lump(buf, LUMP_NODES), NODE_SIZE) as nat,
            self.tree.root,
        );
        Self::tree_lumps(buf).lemma_decoded_refs_valid(
            0,
            record_count(Self::lump(buf, LUMP_NODES), NODE_SIZE) as nat,
            self.tree.root,
        );
        self.models.lemma_decoded_refs_valid(Self::lump(buf, LUMP_MODELS), n_faces, n_brushes);
    }

    /// Try to parse the given buffer as a BSP file
    ///
    /// The lumps are decoded in the order of their dependencies, and the
    /// first failure is the result: there is no partial file.
    pub fn from_buffer(buf: &[u8]) -> (r: Result<BSPFile>)
        ensures
            match r {
                Ok(file) => {
                    &&& Self::error(buf@) is None
                    &&& file.decodes(buf@)
                    &&& file.is_well_formed()
                },
                Err(e) => Self::error(buf@) == Some(e),
            },
    {
        let header = Header::from(buf)?;

        if header.version != VERSION_QUAKE3 && header.version != VERSION_QUAKE_LIVE {
            return Err(Error::Unsupported { version: header.version });
        }
        let entities = EntitiesLump::from_lump(header.get_lump(buf, LUMP_ENTITIES)?)?;
        let textures = TexturesLump::from_lump(header.get_lump(buf, LUMP_TEXTURES)?)?;
        let planes = PlanesLump::from_lump(header.get_lump(buf, LUMP_PLANES)?)?;
        let vertices = VerticesLump::from_lump(header.get_lump(buf, LUMP_VERTICES)?)?;
        let meshverts = MeshVertsLump::from_lump(header.get_lump(buf, LUMP_MESHVERTS)?)?;
        let light_maps = LightMapsLump::from_lump(header.get_lump(buf, LUMP_LIGHTMAPS)?)?;
        let light_vols = LightVolsLump::from_lump(header.get_lump(buf, LUMP_LIGHT_VOLS)?)?;
        let visdata = VisDataLump::from_lump(header.get_lump(buf, LUMP_VISDATA)?)?;
        let brushes = BrushesLump::from_lump(
            header.get_lump(buf, LUMP_BRUSHES)?,
            header.get_lump(buf, LUMP_BRUSH_SIDES)?,
            &textures,
            &planes,
        )?;
        let effects = EffectsLump::from_lump(header.get_lump(buf, LUMP_EFFECTS)?, &brushes)?;
        let faces = FaceLump::from_lump(
            header.get_lump(buf, LUMP_FACES)?,
            &textures,
            &effects,
            &vertices,
            &meshverts,
            &light_maps,
        )?;
        let tree = BSPTree::from_lumps(
            header.get_lump(buf, LUMP_NODES)?,
            header.get_lump(buf, LUMP_LEAVES)?,
            header.get_lump(buf, LUMP_LEAF_FACES)?,
            header.get_lump(buf, LUMP_LEAF_BRUSHES)?,
            &faces,
            &brushes,
            &planes,
        )?;

        let models = ModelsLump::from_lump(header.get_lump(buf, LUMP_MODELS)?, &faces, &brushes)?;

        // Quake Live has an advertisements lump
        let advertisements = if header.version == VERSION_QUAKE_LIVE {
            Some(AdvertisementsLump::from_lump(header.get_lump(buf, LUMP_ADVERTISEMENTS)?)?)
        } else {
            None
        };

        Ok(
            BSPFile {
                directory: header,
                entities,
                textures,
                planes,
                light_vols,
                light_maps,
                vertices,
                meshverts,
                visdata,
                advertisements,
                brushes,
                effects,
                faces,
                tree,
                models,
            },
        )
    }
}

} // verus!
