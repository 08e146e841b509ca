//! The tagged-union column decoder: each row carries a physical sub-type
//! tag; only the float64-buffer tag is supported, and any other tag aborts
//! the whole column's decode.

use vstd::prelude::*;

use crate::model::{UnionColumn, FLOAT_BUFFER_TAG};

verus! {

/// Decoding a tagged-union column failed.
#[derive(Clone, Copy, Debug, PartialEq, Eq, Structural)]
pub enum DecodeError {
    /// A row carried a tag outside the supported set; the payload is the
    /// offending tag.
    UnsupportedTag(u8),
}

/// Row `i` is the first row of the column whose tag is unsupported.
pub open spec fn is_first_bad_row(col: UnionColumn, i: int) -> bool {
    &&& 0 <= i < col.tags@.len()
    &&& col.tags@[i] != FLOAT_BUFFER_TAG
    &&& forall|k: int| 0 <= k < i ==> col.tags@[k] == FLOAT_BUFFER_TAG
}

/// The tag of the first row whose tag is unsupported.
pub open spec fn first_bad_tag(col: UnionColumn) -> u8 {
    col.tags@[choose|i: int| is_first_bad_row(col, i)]
}

/// The decoded column: one backing float64 value sequence per row.
pub open spec fn decoded_rows(col: UnionColumn) -> Seq<Seq<u64>> {
    Seq::new(col.row_count(), |i: int| col.row_value(i))
}

/// Copy a vector of 64-bit values.
fn copy_u64s(v: &Vec<u64>) -> (r: Vec<u64>)
    ensures
        r@ == v@,
{
    let mut r: Vec<u64> = Vec::new();
    let n = v.len();
    let mut i: usize = 0;
    while i < n
        invariant
            i <= n,
            n == v@.len(),
            r@ == v@.subrange(0, i as int),
        decreases n - i,
    {
        r.push(v[i]);
        i = i + 1;
    }
    proof {
        assert(v@.subrange(0, n as int) =~= v@);
    }
    r
}

/// Decode a tagged-union column into one flat float64 value sequence per
/// row. Row `i` reads its backing value at `offsets[i]` when an offset
/// buffer is present, at `i` otherwise. The one supported tag is the
/// float64-buffer tag; any other tag aborts the whole decode, carrying the
/// first offending tag, and produces no partial output.
pub fn decode_union(col: &UnionColumn) -> (r: Result<Vec<Vec<u64>>, DecodeError>)
    requires
        col.wf(),
    ensures
        match r {
            Ok(out) => {
                &&& col.all_tags_supported()
                &&& out@.len() == col.row_count()
                &&& forall|i: int| 0 <= i < out@.len() ==> (#[trigger] out@[i])@ == col.row_value(i)
            },
            Err(e) => {
                &&& !col.all_tags_supported()
                &&& e == DecodeError::UnsupportedTag(first_bad_tag(*col))
            },
        },
{
    let n = col.tags.len();
    let mut out: Vec<Vec<u64>> = Vec::new();
    let mut i: usize = 0;
    while i < n
        invariant
            i <= n,
            n == col.tags@.len(),
            out@.len() == i,
            forall|k: int| 0 <= k < i ==> col.tags@[k] == FLOAT_BUFFER_TAG,
            forall|k: int| 0 <= k < i ==> (#[trigger] out@[k])@ == col.row_value(k),
        decreases n - i,
    {
        let tag = col.tags[i];
        if tag != FLOAT_BUFFER_TAG {
            proof {
                assert(is_first_bad_row(*col, i as int));
                let j = choose|j: int| is_first_bad_row(*col, j);
                if j < i {
                    assert(col.tags@[j] == FLOAT_BUFFER_TAG);
                }
                if i < j {
                    assert(col.tags@[i as int] == FLOAT_BUFFER_TAG);
                }
                assert(first_bad_tag(*col) == tag);
            }
            return Err(DecodeError::UnsupportedTag(tag));
        }
        let value_index: usize = match &col.offsets {
            Some(offsets) => offsets[i],
            None => i,
        };
        let row = copy_u64s(&col.float_lists[value_index]);
        out.push(row);
        i = i + 1;
    }
    Ok(out)
}

} // verus!
