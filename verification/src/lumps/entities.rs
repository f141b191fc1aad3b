//! Parses the entities lump: game-related map information, as text.
//!
//! The text is a run of blocks in braces. A block holds pairs of a name
//! and a value, each in double quotes:
//!
//! ```text
//! {
//! "classname" "worldspawn"
//! "message" "Hello, World!"
//! }
//! ```

use crate::lumps::text::{lemma_text_between_ascii, same_text, text_of};
use crate::types::{Error, Result};
use vstd::prelude::*;
use vstd::std_specs::cmp::PartialEqSpecImpl;
use vstd::utf8::{decode_utf8, valid_utf8};

verus! {

/// `"`, which opens and closes names and values.
pub const QUOTE: u8 = 0x22;

/// `}`, which closes an entity.
pub const END_BRACKET: u8 = 0x7d;

/// `{`, which opens an entity.
pub const START_BRACKET: u8 = 0x7b;

/// Game-related map information
#[derive(Debug, Clone)]
pub struct EntitiesLump {
    /// The extracted entity data
    pub entities: Vec<Entity>,
}

/// A game entity: a map from attribute names to values.
///
/// The attributes are kept in the order in which their names first
/// appeared; no name occurs twice. Two entities are equal where each
/// name has the same value in both, in whatever order.
#[derive(Debug, Clone)]
pub struct Entity {
    pub attributes: Vec<(String, String)>,
}

/// Where the scanner is in the text.
#[derive(Debug, Clone, Copy, PartialEq, Eq, Structural)]
pub enum ParseState {
    /// Inside the quotes of a name.
    InKey,
    /// Inside the quotes of a value.
    InValue,
    /// After a name, before its value.
    AfterKey,
    /// Inside the braces of an entity, between attributes.
    InsideEntity,
    /// Outside any entity.
    OutsideEntity,
}

/// Attributes as mathematics: names and values in order, each a sequence
/// of characters.
pub type Attributes = Seq<(Seq<char>, Seq<char>)>;

/// The place of the first attribute named `key` at or after `from`, or
/// the length of `attrs` if there is none.
pub open spec fn position(attrs: Attributes, key: Seq<char>, from: int) -> int
    decreases attrs.len() - from,
{
    if from >= attrs.len() {
        attrs.len() as int
    } else if attrs[from].0 == key {
        from
    } else {
        position(attrs, key, from + 1)
    }
}

/// The value of the attribute named `key`, if there is one.
pub open spec fn lookup(attrs: Attributes, key: Seq<char>) -> Option<Seq<char>> {
    if position(attrs, key, 0) < attrs.len() {
        Some(attrs[position(attrs, key, 0)].1)
    } else {
        None
    }
}

/// `attrs` after `key` was given `value`: in the place of the attribute
/// of that name if there is one, else at the end.
pub open spec fn with_attribute(attrs: Attributes, key: Seq<char>, value: Seq<char>) -> Attributes {
    if position(attrs, key, 0) < attrs.len() {
        attrs.update(position(attrs, key, 0), (key, value))
    } else {
        attrs.push((key, value))
    }
}

/// No name occurs twice.
pub open spec fn names_distinct(attrs: Attributes) -> bool {
    forall|i: int, j: int| 0 <= i < j < attrs.len() ==> attrs[i].0 != attrs[j].0
}

/// The text between two places of a lump.
pub open spec fn text_between(lump: Seq<u8>, from: int, to: int) -> Seq<char> {
    decode_utf8(lump.subrange(from, to))
}

/// What the scanner knows after some bytes of a lump.
pub struct Scan {
    pub state: ParseState,
    /// Where the last name that was opened starts.
    pub key_start: int,
    /// Where the last name that was closed ends.
    pub key_end: int,
    /// Where the last value that was opened starts.
    pub val_start: int,
    /// The attributes of the entity that is open, or nothing.
    pub attributes: Attributes,
    /// The entities that were closed.
    pub entities: Seq<Attributes>,
}

impl Scan {
    /// Before the first byte: outside any entity, with nothing read.
    pub open spec fn start() -> Scan {
        Scan {
            state: ParseState::OutsideEntity,
            key_start: 0,
            key_end: 0,
            val_start: 0,
            attributes: Seq::empty(),
            entities: Seq::empty(),
        }
    }

    /// The scan after the byte at place `at` of `lump`, or `None` where
    /// that byte may not stand there.
    ///
    /// A quote opens or closes a name or a value, in turn; the quote that
    /// closes a value gives the entity that attribute. An opening brace
    /// may only stand outside an entity, a closing brace only inside one
    /// and between attributes, and a quote only inside one. Any other byte
    /// is part of a name or a value, or is passed over.
    pub open spec fn advance(self, lump: Seq<u8>, at: int) -> Option<Scan> {
        if lump[at] == QUOTE {
            match self.state {
                ParseState::InsideEntity => Some(
                    Scan { state: ParseState::InKey, key_start: at + 1, ..self },
                ),
                ParseState::InKey => Some(
                    Scan { state: ParseState::AfterKey, key_end: at, ..self },
                ),
                ParseState::AfterKey => Some(
                    Scan { state: ParseState::InValue, val_start: at + 1, ..self },
                ),
                ParseState::InValue => Some(
                    Scan {
                        state: ParseState::InsideEntity,
                        attributes: with_attribute(
                            self.attributes,
                            text_between(lump, self.key_start, self.key_end),
                            text_between(lump, self.val_start, at),
                        ),
                        ..self
                    },
                ),
                ParseState::OutsideEntity => None,
            }
        } else if lump[at] == END_BRACKET {
            if self.state == ParseState::InsideEntity {
                Some(
                    Scan {
                        state: ParseState::OutsideEntity,
                        attributes: Seq::empty(),
                        entities: self.entities.push(self.attributes),
                        ..self
                    },
                )
            } else {
                None
            }
        } else if lump[at] == START_BRACKET {
            if self.state == ParseState::OutsideEntity {
                Some(Scan { state: ParseState::InsideEntity, ..self })
            } else {
                None
            }
        } else {
            Some(self)
        }
    }

    /// The scan after the first `n` bytes of `lump`, or `None` where one
    /// of them may not stand where it does.
    pub open spec fn after(lump: Seq<u8>, n: int) -> Option<Scan>
        decreases n,
    {
        if n <= 0 {
            Some(Scan::start())
        } else {
            match Scan::after(lump, n - 1) {
                Some(scan) => scan.advance(lump, n - 1),
                None => None,
            }
        }
    }

    /// The entities of `lump`, if it is well formed: every byte may stand
    /// where it does, and the text ends outside any entity.
    pub open spec fn entities_of(lump: Seq<u8>) -> Option<Seq<Attributes>> {
        match Scan::after(lump, lump.len() as int) {
            Some(scan) => if scan.state == ParseState::OutsideEntity {
                Some(scan.entities)
            } else {
                None
            },
            None => None,
        }
    }

    /// No name occurs twice in an entity, be it closed or still open.
    pub open spec fn names_distinct(self) -> bool {
        &&& names_distinct(self.attributes)
        &&& forall|k: int|
            0 <= k < self.entities.len() ==> names_distinct(#[trigger] self.entities[k])
    }

    /// However far a lump was scanned, no name occurs twice in an entity.
    pub proof fn lemma_names_distinct(lump: Seq<u8>, n: int)
        requires
            Scan::after(lump, n) is Some,
        ensures
            Scan::after(lump, n)->0.names_distinct(),
        decreases n,
    {
        if n > 0 {
            Scan::lemma_names_distinct(lump, n - 1);
            let before = Scan::after(lump, n - 1)->0;
            lemma_with_attribute_distinct(
                before.attributes,
                text_between(lump, before.key_start, before.key_end),
                text_between(lump, before.val_start, n - 1),
            );
        }
    }

    /// Once a byte was refused, the scan stays refused.
    pub proof fn lemma_refused_stays(lump: Seq<u8>, n: int, m: int)
        requires
            0 <= n <= m,
            Scan::after(lump, n) is None,
        ensures
            Scan::after(lump, m) is None,
        decreases m - n,
    {
        if n < m {
            Scan::lemma_refused_stays(lump, n, m - 1);
        }
    }
}

/// Giving an attribute a value keeps the names distinct.
pub proof fn lemma_with_attribute_distinct(attrs: Attributes, key: Seq<char>, value: Seq<char>)
    requires
        names_distinct(attrs),
    ensures
        names_distinct(with_attribute(attrs, key, value)),
{
    lemma_position(attrs, key, 0);
}

/// `position` finds the first attribute of that name from `from` on.
pub proof fn lemma_position(attrs: Attributes, key: Seq<char>, from: int)
    requires
        0 <= from,
    ensures
        position(attrs, key, from) < attrs.len() ==> from <= position(attrs, key, from)
            && attrs[position(attrs, key, from)].0 == key,
        forall|i: int|
            from <= i < position(attrs, key, from) && i < attrs.len() ==> attrs[i].0 != key,
    decreases attrs.len() - from,
{
    if from < attrs.len() && attrs[from].0 != key {
        lemma_position(attrs, key, from + 1);
    }
}

impl View for Entity {
    type V = Attributes;

    open spec fn view(&self) -> Attributes {
        Seq::new(self.attributes@.len(), |i: int| (self.attributes@[i].0@, self.attributes@[i].1@))
    }
}

impl Entity {
    /// No name occurs twice.
    pub open spec fn is_well_formed(&self) -> bool {
        names_distinct(self@)
    }

    /// An entity without attributes.
    pub fn new() -> (e: Entity)
        ensures
            e@ == Seq::<(Seq<char>, Seq<char>)>::empty(),
            e.is_well_formed(),
    {
        Entity { attributes: Vec::new() }
    }

    /// Gives the attribute `key` the value `value`. An attribute of that
    /// name keeps its place and gets the new value; a new name goes to
    /// the end.
    pub fn insert(&mut self, key: String, value: String)
        ensures
            final(self)@ == with_attribute(old(self)@, key@, value@),
            old(self).is_well_formed() ==> final(self).is_well_formed(),
    {
        proof {
            if self.is_well_formed() {
                lemma_with_attribute_distinct(self@, key@, value@);
            }
        }
        let mut j: usize = 0;
        while j < self.attributes.len()
            invariant
                j <= self.attributes@.len(),
                *self == *old(self),
                position(self@, key@, 0) == position(self@, key@, j as int),
            decreases self.attributes@.len() - j,
        {
            if same_text(self.attributes[j].0.as_str(), key.as_str()) {
                let ghost before = self@;
                self.attributes.set(j, (key, value));
                assert(self@ =~= before.update(j as int, (key@, value@)));
                return ;
            }
            j += 1;
        }
        let ghost before = self@;
        self.attributes.push((key, value));
        assert(self@ =~= before.push((key@, value@)));
    }

    /// The value of the attribute `key`, if there is one.
    pub fn get(&self, key: &str) -> (r: Option<&String>)
        ensures
            r is Some <==> lookup(self@, key@) is Some,
            r matches Some(value) ==> lookup(self@, key@) == Some(value@),
    {
        let mut j: usize = 0;
        while j < self.attributes.len()
            invariant
                j <= self.attributes@.len(),
                position(self@, key@, 0) == position(self@, key@, j as int),
            decreases self.attributes@.len() - j,
        {
            if same_text(self.attributes[j].0.as_str(), key) {
                return Some(&self.attributes[j].1);
            }
            j += 1;
        }
        None
    }
}

impl Entity {
    /// Every name of `self` has the value in `other` that it has in
    /// `self`.
    pub open spec fn agrees_with(&self, other: &Entity) -> bool {
        forall|j: int|
            0 <= j < self@.len() ==> lookup(self@, #[trigger] self@[j].0) == lookup(
                other@,
                self@[j].0,
            )
    }

    /// Internal function. Whether every name of `self` has the value in
    /// `other` that it has in `self`.
    fn check_agrees_with(&self, other: &Entity) -> (r: bool)
        ensures
            r == self.agrees_with(other),
    {
        let mut j: usize = 0;
        while j < self.attributes.len()
            invariant
                j <= self.attributes@.len(),
                forall|k: int|
                    0 <= k < j ==> lookup(self@, #[trigger] self@[k].0) == lookup(
                        other@,
                        self@[k].0,
                    ),
            decreases self.attributes@.len() - j,
        {
            let key = self.attributes[j].0.as_str();
            assert(key@ == self@[j as int].0);
            let same = match (self.get(key), other.get(key)) {
                (Some(a), Some(b)) => same_text(a.as_str(), b.as_str()),
                (None, None) => true,
                _ => false,
            };
            if !same {
                return false;
            }
            j += 1;
        }
        true
    }
}

impl PartialEq for Entity {
    fn eq(&self, other: &Entity) -> (r: bool) {
        proof {
            assert forall|key: Seq<char>|
                self.agrees_with(other) && other.agrees_with(self) implies lookup(self@, key)
                == lookup(other@, key) by {
                lemma_position(self@, key, 0);
                lemma_position(other@, key, 0);
                if position(self@, key, 0) < self@.len() {
                    assert(self@[position(self@, key, 0)].0 == key);
                } else if position(other@, key, 0) < other@.len() {
                    assert(other@[position(other@, key, 0)].0 == key);
                }
            }
        }
        self.check_agrees_with(other) && other.check_agrees_with(self)
    }
}

impl PartialEqSpecImpl for Entity {
    open spec fn obeys_eq_spec() -> bool {
        true
    }

    open spec fn eq_spec(&self, other: &Entity) -> bool {
        forall|key: Seq<char>| lookup(self@, key) == lookup(other@, key)
    }
}

impl EntitiesLump {
    /// Why `lump` is rejected, if it is: `BadFormat`, where it is not
    /// UTF-8 or is not a run of well-formed entities.
    pub open spec fn error(lump: Seq<u8>) -> Option<Error> {
        if valid_utf8(lump) && Scan::entities_of(lump) is Some {
            None
        } else {
            Some(Error::BadFormat)
        }
    }

    /// These entities are the ones that `lump` holds, in order.
    pub open spec fn decodes(&self, lump: Seq<u8>) -> bool {
        &&& Scan::entities_of(lump) matches Some(entities)
        &&& self.entities@.len() == entities.len()
        &&& forall|i: int|
            0 <= i < entities.len() ==> (#[trigger] self.entities@[i])@ == entities[i]
    }

    /// No name occurs twice in an entity.
    pub open spec fn is_well_formed(&self) -> bool {
        forall|i: int|
            0 <= i < self.entities@.len() ==> (#[trigger] self.entities@[i]).is_well_formed()
    }

    /// In entities that a lump holds, no name occurs twice.
    pub proof fn lemma_decoded_is_well_formed(&self, lump: Seq<u8>)
        requires
            self.decodes(lump),
        ensures
            self.is_well_formed(),
    {
        Scan::lemma_names_distinct(lump, lump.len() as int);
    }

    /// Parse the given lump as an Entities Lump.
    pub fn from_lump(lump: &[u8]) -> (r: Result<EntitiesLump>)
        ensures
            match r {
                Ok(l) => Self::error(lump@) is None && l.decodes(lump@) && l.is_well_formed(),
                Err(e) => Self::error(lump@) == Some(e),
            },
    {
        if core::str::from_utf8(lump).is_err() {
            return Err(Error::BadFormat);
        }
        let mut attrs = Entity::new();
        let mut entities: Vec<Entity> = Vec::new();

        let mut state = ParseState::OutsideEntity;

        let mut key_start: usize = 0;
        let mut key_end: usize = 0;
        let mut val_start: usize = 0;

        let ghost mut scan = Scan::start();

        let mut i: usize = 0;
        while i < lump.len()
            invariant
                i <= lump.len(),
                valid_utf8(lump@),
                Scan::after(lump@, i as int) == Some(scan),
                scan.state == state,
                scan.key_start == key_start,
                scan.key_end == key_end,
                scan.val_start == val_start,
                scan.attributes == attrs@,
                scan.entities.len() == entities@.len(),
                forall|k: int|
                    0 <= k < entities@.len() ==> (#[trigger] entities@[k])@ == scan.entities[k],
                state != ParseState::InsideEntity && state != ParseState::OutsideEntity ==> 0
                    < key_start <= i && lump@[key_start - 1] == QUOTE,
                state == ParseState::AfterKey || state == ParseState::InValue ==> key_start
                    <= key_end < i && lump@[key_end as int] == QUOTE,
                state == ParseState::InValue ==> key_end < val_start <= i && lump@[val_start - 1]
                    == QUOTE,
            decreases lump.len() - i,
        {
            let chr: u8 = lump[i];
            proof {
                if scan.advance(lump@, i as int) is None {
                    Scan::lemma_refused_stays(lump@, i + 1, lump@.len() as int);
                }
            }
            if chr == QUOTE {
                match state {
                    ParseState::InsideEntity => {
                        state = ParseState::InKey;
                        key_start = i + 1;
                    },
                    ParseState::InKey => {
                        state = ParseState::AfterKey;
                        key_end = i;
                    },
                    ParseState::AfterKey => {
                        state = ParseState::InValue;
                        val_start = i + 1;
                    },
                    ParseState::InValue => {
                        state = ParseState::InsideEntity;
                        proof {
                            lemma_text_between_ascii(lump@, key_start as int, key_end as int);
                            lemma_text_between_ascii(lump@, val_start as int, i as int);
                        }
                        let key = match text_of(&lump[key_start..key_end]) {
                            Some(key) => key,
                            None => {
                                return Err(Error::BadFormat);
                            },
                        };
                        let value = match text_of(&lump[val_start..i]) {
                            Some(value) => value,
                            None => {
                                return Err(Error::BadFormat);
                            },
                        };
                        attrs.insert(key, value);
                    },
                    ParseState::OutsideEntity => {
                        return Err(Error::BadFormat);
                    },
                }
            } else if chr == END_BRACKET {
                if state != ParseState::InsideEntity {
                    return Err(Error::BadFormat);
                }
                state = ParseState::OutsideEntity;

                entities.push(attrs);
                attrs = Entity::new();
            } else if chr == START_BRACKET {
                if state != ParseState::OutsideEntity {
                    return Err(Error::BadFormat);
                }
                state = ParseState::InsideEntity;
            }
            proof {
                scan = scan.advance(lump@, i as int)->0;
            }
            i += 1;
        }
        if state != ParseState::OutsideEntity {
            return Err(Error::BadFormat);
        }
        let entities = EntitiesLump { entities };
        proof {
            entities.lemma_decoded_is_well_formed(lump@);
        }
        Ok(entities)
    }
}

} // verus!
