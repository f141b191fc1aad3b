//! Parses the models lump: the world and the things in it that move.

use crate::lumps::brushes::BrushesLump;
use crate::lumps::faces::FaceLump;
use crate::lumps::helpers::{
    first_error, i32_at, lemma_first_error_none, range_error, range_of, read_range, read_vec3,
    record, record_count, whole_records,
};
use crate::types::{Error, Result, Vector3};
use core::ops::Range;
use vstd::prelude::*;

verus! {

/// The size of one model record.
pub const MODEL_SIZE: usize = 40;

/// Names the run of faces of a model in a `BadRef`.
pub const MODEL_FACES: &'static str = "Model.faces_idx";

/// Names the run of brushes of a model in a `BadRef`.
pub const MODEL_BRUSHES: &'static str = "Model.brushes_idx";

/// One rigid part of the map: the world itself, or a thing that moves.
#[derive(Debug)]
pub struct Model {
    pub mins: Vector3,
    pub maxs: Vector3,
    pub faces_idx: Range<usize>,
    pub brushes_idx: Range<usize>,
}

/// The models lump from a BSP file.
/// Found at lump index 7 in a q3 bsp.
#[derive(Debug, Clone)]
pub struct ModelsLump {
    pub models: Vec<Model>,
}

impl Clone for Model {
    fn clone(&self) -> (r: Self)
        ensures
            r == *self,
    {
        Model {
            mins: self.mins,
            maxs: self.maxs,
            faces_idx: self.faces_idx.start..self.faces_idx.end,
            brushes_idx: self.brushes_idx.start..self.brushes_idx.end,
        }
    }
}

impl Model {
    /// Both runs of the model lie in their lumps.
    pub open spec fn refs_valid(&self, n_faces: int, n_brushes: int) -> bool {
        &&& self.faces_idx.start <= self.faces_idx.end <= n_faces
        &&& self.brushes_idx.start <= self.brushes_idx.end <= n_brushes
    }

    /// Why a record (40 bytes) is not a model: its faces, or else its
    /// brushes, do not all exist.
    pub open spec fn record_error(rec: Seq<u8>, n_faces: int, n_brushes: int) -> Option<Error> {
        if range_error(i32_at(rec, 24), i32_at(rec, 28), n_faces, MODEL_FACES) is Some {
            range_error(i32_at(rec, 24), i32_at(rec, 28), n_faces, MODEL_FACES)
        } else {
            range_error(i32_at(rec, 32), i32_at(rec, 36), n_brushes, MODEL_BRUSHES)
        }
    }

    /// The model that a record (40 bytes) without error holds: the two
    /// corners of its box, then first face and number of faces, first
    /// brush and number of brushes.
    pub open spec fn of_record(rec: Seq<u8>) -> Model {
        Model {
            mins: Vector3::at(rec, 0),
            maxs: Vector3::at(rec, 12),
            faces_idx: range_of(i32_at(rec, 24), i32_at(rec, 28)),
            brushes_idx: range_of(i32_at(rec, 32), i32_at(rec, 36)),
        }
    }
}

impl ModelsLump {
    /// Both runs of every model lie in their lumps.
    pub open spec fn refs_valid(&self, n_faces: int, n_brushes: int) -> bool {
        forall|i: int|
            0 <= i < self.models@.len() ==> (#[trigger] self.models@[i]).refs_valid(
                n_faces,
                n_brushes,
            )
    }

    /// The error of each record of `lump`, by its index.
    pub open spec fn record_errors(lump: Seq<u8>, n_faces: int, n_brushes: int) -> spec_fn(
        int,
    ) -> Option<Error> {
        |i: int| Model::record_error(record(lump, MODEL_SIZE, i), n_faces, n_brushes)
    }

    /// Why `lump` is rejected, if it is: `BadSize { req: 40 }` for its
    /// length, else the error of the first record that has one.
    pub open spec fn error(lump: Seq<u8>, n_faces: int, n_brushes: int) -> Option<Error> {
        if !whole_records(lump, MODEL_SIZE) {
            Some(Error::BadSize { req: MODEL_SIZE as u32 })
        } else {
            first_error(
                0,
                record_count(lump, MODEL_SIZE),
                Self::record_errors(lump, n_faces, n_brushes),
            )
        }
    }

    /// The models that a lump without error holds, in order.
    pub open spec fn decoded(lump: Seq<u8>) -> Seq<Model> {
        Seq::new(
            record_count(lump, MODEL_SIZE) as nat,
            |i: int| Model::of_record(record(lump, MODEL_SIZE, i)),
        )
    }

    /// These models are what `lump` holds, record by record.
    pub open spec fn decodes(&self, lump: Seq<u8>) -> bool {
        self.models@ =~= Self::decoded(lump)
    }

    /// Models that a lump without error holds point into their lumps:
    /// checking them again after decoding finds nothing.
    pub proof fn lemma_decoded_refs_valid(&self, lump: Seq<u8>, n_faces: int, n_brushes: int)
        requires
            0 <= n_faces <= usize::MAX,
            0 <= n_brushes <= usize::MAX,
            Self::error(lump, n_faces, n_brushes) is None,
            self.decodes(lump),
        ensures
            self.refs_valid(n_faces, n_brushes),
    {
        lemma_first_error_none(
            0,
            record_count(lump, MODEL_SIZE),
            Self::record_errors(lump, n_faces, n_brushes),
        );
        assert forall|i: int| 0 <= i < self.models@.len() implies
            (#[trigger] self.models@[i]).refs_valid(n_faces, n_brushes)
        by {
            assert(Self::record_errors(lump, n_faces, n_brushes)(i) is None);
        }
    }

    /// Parse the models lump, checking the runs of faces and brushes
    /// against the lumps given.
    pub fn from_lump(data: &[u8], faces_lump: &FaceLump, brushes_lump: &BrushesLump) -> (r: Result<
        ModelsLump,
    >)
        ensures
            match r {
                Ok(l) => {
                    &&& Self::error(
                        data@,
                        faces_lump.faces@.len() as int,
                        brushes_lump.brushes@.len() as int,
                    ) is None
                    &&& l.decodes(data@)
                    &&& l.refs_valid(
                        faces_lump.faces@.len() as int,
                        brushes_lump.brushes@.len() as int,
                    )
                },
                Err(e) => Self::error(
                    data@,
                    faces_lump.faces@.len() as int,
                    brushes_lump.brushes@.len() as int,
                ) == Some(e),
            },
    {
        if data.len() % MODEL_SIZE != 0 {
            return Err(Error::BadSize { req: MODEL_SIZE as u32 });
        }
        let n_models: usize = data.len() / MODEL_SIZE;
        let n_faces: usize = faces_lump.faces.len();
        let n_brushes: usize = brushes_lump.brushes.len();
        let ghost errs = Self::record_errors(data@, n_faces as int, n_brushes as int);

        let mut models: Vec<Model> = Vec::with_capacity(n_models);
        let mut n: usize = 0;
        while n < n_models
            invariant
                n <= n_models,
                n_models == data.len() / MODEL_SIZE,
                data.len() % MODEL_SIZE == 0,
                n_faces == faces_lump.faces@.len(),
                n_brushes == brushes_lump.brushes@.len(),
                errs == Self::record_errors(data@, n_faces as int, n_brushes as int),
                first_error(0, n_models as int, errs) == first_error(
                    n as int,
                    n_models as int,
                    errs,
                ),
                models@.len() == n,
                forall|i: int|
                    0 <= i < n ==> #[trigger] models@[i] == Model::of_record(
                        record(data@, MODEL_SIZE, i),
                    ),
            decreases n_models - n,
        {
            let offset: usize = n * MODEL_SIZE;
            let raw = &data[offset..offset + MODEL_SIZE];

            let mins = read_vec3(raw, 0);
            let maxs = read_vec3(raw, 12);

            let faces_idx = read_range(raw, 24, n_faces, MODEL_FACES)?;
            let brushes_idx = read_range(raw, 32, n_brushes, MODEL_BRUSHES)?;

            models.push(Model { mins, maxs, faces_idx, brushes_idx });
            n += 1;
        }

        let models = ModelsLump { models };
        proof {
            models.lemma_decoded_refs_valid(data@, n_faces as int, n_brushes as int);
        }
        Ok(models)
    }
}

} // verus!
