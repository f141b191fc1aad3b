//! Parses the effects lump: named shaders attached to brushes.

use crate::lumps::brushes::BrushesLump;
use crate::lumps::helpers::{
    first_error, i32_at, index_error, lemma_first_error_none, read_index, record, record_count,
    whole_records,
};
use crate::lumps::text::text_of;
use crate::types::{Error, Result};
use vstd::prelude::*;
use vstd::utf8::{decode_utf8, valid_utf8};

verus! {

/// The size of one effect definition
pub const EFFECT_SIZE: usize = 72;

/// Names the brush index of an effect in a `BadRef`.
pub const EFFECT_BRUSH: &'static str = "Effect.brush_idx";

/// One effect definition
#[derive(Debug, Clone, PartialEq)]
pub struct Effect {
    /// The name of the effect - always 64 characters long
    pub name: String,
    /// The brush used for this effect
    pub brush_idx: usize,
}

/// Lump containing all effects
/// Found at index 12 in a q3 bsp
#[derive(Debug, Clone)]
pub struct EffectsLump {
    pub effects: Vec<Effect>,
}

impl Effect {
    /// The brush of the effect exists.
    pub open spec fn refs_valid(&self, n_brushes: int) -> bool {
        self.brush_idx < n_brushes
    }

    /// Why a record (72 bytes) is not an effect: its brush does not
    /// exist, or else its name is not text.
    pub open spec fn record_error(rec: Seq<u8>, n_brushes: int) -> Option<Error> {
        if index_error(i32_at(rec, 64), n_brushes, EFFECT_BRUSH) is Some {
            index_error(i32_at(rec, 64), n_brushes, EFFECT_BRUSH)
        } else if !valid_utf8(rec.subrange(0, 64)) {
            Some(Error::BadFormat)
        } else {
            None
        }
    }

    /// This effect is what a record (72 bytes) holds: 64 bytes of name,
    /// then the brush index; the last four bytes are not read.
    pub open spec fn decodes(&self, rec: Seq<u8>) -> bool {
        &&& self.name@ == decode_utf8(rec.subrange(0, 64))
        &&& self.brush_idx == i32_at(rec, 64)
    }
}

impl EffectsLump {
    /// The brush of every effect exists.
    pub open spec fn refs_valid(&self, n_brushes: int) -> bool {
        forall|i: int|
            0 <= i < self.effects@.len() ==> (#[trigger] self.effects@[i]).refs_valid(n_brushes)
    }

    /// The error of each record of `lump`, by its index.
    pub open spec fn record_errors(lump: Seq<u8>, n_brushes: int) -> spec_fn(int) -> Option<
        Error,
    > {
        |i: int| Effect::record_error(record(lump, EFFECT_SIZE, i), n_brushes)
    }

    /// Why `lump` is rejected, if it is: `BadSize { req: 72 }` for its
    /// length, else the error of the first record that has one.
    pub open spec fn error(lump: Seq<u8>, n_brushes: int) -> Option<Error> {
        if !whole_records(lump, EFFECT_SIZE) {
            Some(Error::BadSize { req: EFFECT_SIZE as u32 })
        } else {
            first_error(0, record_count(lump, EFFECT_SIZE), Self::record_errors(lump, n_brushes))
        }
    }

    /// These effects are what `lump` holds, record by record.
    pub open spec fn decodes(&self, lump: Seq<u8>) -> bool {
        &&& self.effects@.len() == record_count(lump, EFFECT_SIZE)
        &&& forall|i: int|
            0 <= i < self.effects@.len() ==> (#[trigger] self.effects@[i]).decodes(
                record(lump, EFFECT_SIZE, i),
            )
    }

    /// Effects that a lump without error holds point into the brushes:
    /// checking them again after decoding finds nothing.
    pub proof fn lemma_decoded_refs_valid(&self, lump: Seq<u8>, n_brushes: int)
        requires
            Self::error(lump, n_brushes) is None,
            self.decodes(lump),
        ensures
            self.refs_valid(n_brushes),
    {
        lemma_first_error_none(
            0,
            record_count(lump, EFFECT_SIZE),
            Self::record_errors(lump, n_brushes),
        );
        assert forall|i: int| 0 <= i < self.effects@.len() implies
            (#[trigger] self.effects@[i]).refs_valid(n_brushes)
        by {
            assert(Self::record_errors(lump, n_brushes)(i) is None);
        }
    }

    /// Parses the given lump and checks the brush references against the given `BrushesLump`
    pub fn from_lump(lump: &[u8], brushes: &BrushesLump) -> (r: Result<EffectsLump>)
        ensures
            match r {
                Ok(l) => {
                    &&& Self::error(lump@, brushes.brushes@.len() as int) is None
                    &&& l.decodes(lump@)
                    &&& l.refs_valid(brushes.brushes@.len() as int)
                },
                Err(e) => Self::error(lump@, brushes.brushes@.len() as int) == Some(e),
            },
    {
        if lump.len() % EFFECT_SIZE != 0 {
            return Err(Error::BadSize { req: EFFECT_SIZE as u32 });
        }
        let length: usize = lump.len() / EFFECT_SIZE;
        let n_brushes: usize = brushes.brushes.len();
        let ghost errs = Self::record_errors(lump@, n_brushes as int);

        let mut effects: Vec<Effect> = Vec::with_capacity(length);
        let mut n: usize = 0;
        while n < length
            invariant
                n <= length,
                length == lump.len() / EFFECT_SIZE,
                lump.len() % EFFECT_SIZE == 0,
                n_brushes == brushes.brushes@.len(),
                errs == Self::record_errors(lump@, n_brushes as int),
                first_error(0, length as int, errs) == first_error(n as int, length as int, errs),
                effects@.len() == n,
                forall|i: int|
                    0 <= i < n ==> (#[trigger] effects@[i]).decodes(record(lump@, EFFECT_SIZE, i)),
            decreases length - n,
        {
            let offset: usize = n * EFFECT_SIZE;
            let raw = &lump[offset..offset + EFFECT_SIZE];

            let brush_idx = read_index(raw, 64, n_brushes, EFFECT_BRUSH)?;
            let name = match text_of(&raw[0..64]) {
                Some(s) => s,
                None => {
                    return Err(Error::BadFormat);
                },
            };
            effects.push(Effect { name, brush_idx });
            n += 1;
        }

        let effects = EffectsLump { effects };
        proof {
            effects.lemma_decoded_refs_valid(lump@, n_brushes as int);
        }
        Ok(effects)
    }

    /// A lump without effects.
    pub fn empty() -> (l: EffectsLump)
        ensures
            l.effects@.len() == 0,
    {
        EffectsLump { effects: Vec::new() }
    }
}

} // verus!
