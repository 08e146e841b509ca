//! The data model: chunks, component columns, row values and tagged-union
//! columns, as plain values.
//!
//! A chunk is an immutable columnar batch of rows under one entity path.
//! Every component column and every timeline of a chunk has one entry per
//! row. Payload floats are carried as their 64-bit patterns, so that the
//! numeric data can be stated about exactly; the embedding application
//! converts to and from machine floats at the edge.

use vstd::prelude::*;

verus! {

/// The tag under which a union row carries a float64 buffer nested in a list.
pub const FLOAT_BUFFER_TAG: u8 = 11;

/// A tagged-union column: row `i` carries the physical sub-type `tags[i]`,
/// and its backing value sits in the nested float-buffer field at
/// `offsets[i]` when an offset buffer is present, at `i` otherwise.
/// `float_lists[j]` is the backing float64 value sequence (bit patterns) of
/// the nested list element `j` of the float-buffer field.
pub struct UnionColumn {
    pub tags: Vec<u8>,
    pub offsets: Option<Vec<usize>>,
    pub float_lists: Vec<Vec<u64>>,
}

impl UnionColumn {
    /// Well-formedness: the offset buffer, when present, has one entry per
    /// row and every entry lands inside the float-buffer field; without an
    /// offset buffer the rows index the field directly, so the field has one
    /// nested element per row.
    pub open spec fn wf(self) -> bool {
        match self.offsets {
            Some(offsets) => {
                &&& offsets@.len() == self.tags@.len()
                &&& forall|i: int|
                    0 <= i < offsets@.len() ==> offsets@[i] < self.float_lists@.len()
            },
            None => self.float_lists@.len() == self.tags@.len(),
        }
    }

    /// Where row `i`'s backing value sits in the float-buffer field.
    pub open spec fn value_index(self, i: int) -> int {
        match self.offsets {
            Some(offsets) => offsets@[i] as int,
            None => i,
        }
    }

    /// The backing float64 values of row `i`.
    pub open spec fn row_value(self, i: int) -> Seq<u64> {
        self.float_lists@[self.value_index(i)]@
    }

    pub open spec fn row_count(self) -> nat {
        self.tags@.len()
    }

    /// Every row carries the one supported tag.
    pub open spec fn all_tags_supported(self) -> bool {
        forall|i: int| 0 <= i < self.tags@.len() ==> self.tags@[i] == FLOAT_BUFFER_TAG
    }
}

/// One row of a component column, by its physical representation.
pub enum RowValue {
    /// A structured record; the fields stand in ordinal order.
    Struct(Vec<FieldValue>),
    /// A float64 array (bit patterns).
    Floats(Vec<u64>),
    /// A list of strings.
    Texts(Vec<String>),
    /// Some other physical representation, read by no extractor.
    Other,
}

/// One field of a structured row.
pub enum FieldValue {
    /// A tagged-union buffer.
    Buffer(UnionColumn),
    /// Some other physical representation; not decodable as a buffer.
    Other,
}

impl FieldValue {
    pub open spec fn wf(self) -> bool {
        match self {
            FieldValue::Buffer(u) => u.wf(),
            FieldValue::Other => true,
        }
    }
}

impl RowValue {
    pub open spec fn wf(self) -> bool {
        match self {
            RowValue::Struct(fields) => forall|i: int|
                0 <= i < fields@.len() ==> #[trigger] fields@[i].wf(),
            _ => true,
        }
    }
}

/// A named, homogeneously-typed array with one entry per chunk row.
pub struct ComponentColumn {
    pub name: String,
    pub rows: Vec<RowValue>,
}

/// A named axis of integer timestamps, one per chunk row.
pub struct TimeColumn {
    pub name: String,
    pub times: Vec<i64>,
}

/// An immutable columnar batch of rows sharing one entity path, one set of
/// timelines and a set of named component columns.
pub struct Chunk {
    pub entity_path: String,
    pub timelines: Vec<TimeColumn>,
    pub components: Vec<ComponentColumn>,
}

impl Chunk {
    /// The number of rows, as the first component column declares it.
    pub open spec fn spec_row_count(self) -> nat {
        if self.components@.len() > 0 {
            self.components@[0].rows@.len()
        } else if self.timelines@.len() > 0 {
            self.timelines@[0].times@.len()
        } else {
            0
        }
    }

    /// Well-formedness: every component column and every timeline has one
    /// entry per row, and every nested union buffer is well-formed.
    pub open spec fn wf(self) -> bool {
        &&& forall|c: int|
            0 <= c < self.components@.len()
                ==> #[trigger] self.components@[c].rows@.len() == self.spec_row_count()
        &&& forall|t: int|
            0 <= t < self.timelines@.len()
                ==> #[trigger] self.timelines@[t].times@.len() == self.spec_row_count()
        &&& forall|c: int, i: int|
            0 <= c < self.components@.len() && 0 <= i < self.components@[c].rows@.len()
                ==> (#[trigger] self.components@[c].rows@[i]).wf()
    }
}

/// A logical session: its full set of entity paths, plus the messages of its
/// stream. A message holds the chunk reconstructed from it, or nothing where
/// the message carried no chunk or its reconstruction failed upstream (such
/// messages are skipped).
pub struct EntityDatabase {
    pub entity_paths: Vec<String>,
    pub messages: Vec<Option<Chunk>>,
}

impl EntityDatabase {
    pub open spec fn wf(self) -> bool {
        forall|m: int|
            0 <= m < self.messages@.len() ==> match #[trigger] self.messages@[m] {
                Some(c) => c.wf(),
                None => true,
            }
    }
}

/// A persisted bundle: one or more independent entity databases.
pub struct Bundle {
    pub entity_dbs: Vec<EntityDatabase>,
}

impl Bundle {
    pub open spec fn wf(self) -> bool {
        forall|d: int|
            0 <= d < self.entity_dbs@.len() ==> (#[trigger] self.entity_dbs@[d]).wf()
    }
}

} // verus!
