//! The extractors: walk a chunk's payload column and assemble its decoded
//! rows into a rectangular matrix (tensor), a vector (scalar), or a
//! metadata record; copy its timelines into owned sequences.

use vstd::prelude::*;

use crate::classify::{
    is_scalar_chunk, is_tensor_chunk, media_type_component, spec_is_scalar_chunk,
    spec_is_tensor_chunk, text_component,
};
use crate::decode::{decode_union, decoded_rows, first_bad_tag, DecodeError};
use crate::model::{Chunk, ComponentColumn, FieldValue, RowValue, TimeColumn, UnionColumn};
use crate::records::{
    rectangular, timelines_view, Data, DataChunk, DataRecordView, DataView, Matrix, MetaChunk,
    MetaRecordView,
};
use crate::text::str_eq;

verus! {

/// Extracting a chunk's payload failed.
#[derive(Clone, Copy, Debug, PartialEq, Eq, Structural)]
pub enum ExtractError {
    /// The chunk has no component column to read the payload from.
    NoComponents,
    /// A union row carried a tag outside the supported set; the payload is
    /// the first offending tag.
    UnsupportedTag(u8),
    /// The decoded tensor rows are not all of equal length.
    NonRectangular,
    /// A scalar row did not hold a direct numeric value.
    TypeMismatch,
    /// The chunk carries neither a tensor nor a scalar payload.
    UnsupportedChunkType,
}

/// The rows of the payload column: the first component column, by the
/// store's native column ordering.
pub open spec fn payload_rows(c: Chunk) -> Seq<RowValue> {
    c.components@[0].rows@
}

/// A tensor row decodes: it is a structured record whose field at ordinal 1
/// (the buffer field) is a tagged-union buffer.
pub open spec fn tensor_row_ok(row: RowValue) -> bool {
    match row {
        RowValue::Struct(fields) => fields@.len() >= 2 && match fields@[1] {
            FieldValue::Buffer(_) => true,
            _ => false,
        },
        _ => false,
    }
}

/// The buffer field of a tensor row (meaningful only where `tensor_row_ok`).
pub open spec fn row_buffer(row: RowValue) -> UnionColumn {
    match row {
        RowValue::Struct(fields) => match fields@[1] {
            FieldValue::Buffer(u) => u,
            _ => arbitrary(),
        },
        _ => arbitrary(),
    }
}

/// The concatenation of a sequence of value sequences.
pub open spec fn concat_rows(lists: Seq<Seq<u64>>) -> Seq<u64>
    decreases lists.len(),
{
    if lists.len() == 0 {
        Seq::empty()
    } else {
        concat_rows(lists.drop_last()) + lists.last()
    }
}

/// The flat float64 row a tensor row decodes to: its buffer's decoded rows,
/// concatenated.
pub open spec fn flat_row(row: RowValue) -> Seq<u64> {
    concat_rows(decoded_rows(row_buffer(row)))
}

/// The matrix rows a payload column yields: one flat row per payload row
/// that decodes, in row order; rows that fail the downcast are dropped.
pub open spec fn tensor_rows_model(rows: Seq<RowValue>) -> Seq<Seq<u64>>
    decreases rows.len(),
{
    if rows.len() == 0 {
        Seq::empty()
    } else {
        let rest = tensor_rows_model(rows.drop_last());
        if tensor_row_ok(rows.last()) {
            rest.push(flat_row(rows.last()))
        } else {
            rest
        }
    }
}

/// How many payload rows decode (pass the structured-record downcast).
pub open spec fn decoded_row_count(rows: Seq<RowValue>) -> nat
    decreases rows.len(),
{
    if rows.len() == 0 {
        0
    } else {
        decoded_row_count(rows.drop_last()) + if tensor_row_ok(rows.last()) {
            1nat
        } else {
            0nat
        }
    }
}

/// No row that decodes carries an unsupported union tag.
pub open spec fn tensor_decode_ok(rows: Seq<RowValue>) -> bool {
    forall|i: int|
        0 <= i < rows.len() && tensor_row_ok(#[trigger] rows[i])
            ==> row_buffer(rows[i]).all_tags_supported()
}

/// Row `i` is the first decodable row whose buffer carries an unsupported
/// tag.
pub open spec fn is_first_undecodable_row(rows: Seq<RowValue>, i: int) -> bool {
    &&& 0 <= i < rows.len()
    &&& tensor_row_ok(rows[i])
    &&& !row_buffer(rows[i]).all_tags_supported()
    &&& forall|k: int|
        0 <= k < i && tensor_row_ok(#[trigger] rows[k])
            ==> row_buffer(rows[k]).all_tags_supported()
}

/// The offending tag reported for a payload column that fails to decode.
pub open spec fn first_undecodable_tag(rows: Seq<RowValue>) -> u8 {
    first_bad_tag(row_buffer(rows[choose|i: int| is_first_undecodable_row(rows, i)]))
}

/// Tensor extraction succeeds: there is a payload column, every decodable
/// row's buffer is supported, and the decoded rows are rectangular.
pub open spec fn spec_tensor_extract_ok(c: Chunk) -> bool {
    &&& c.components@.len() > 0
    &&& tensor_decode_ok(payload_rows(c))
    &&& rectangular(tensor_rows_model(payload_rows(c)))
}

/// Which error tensor extraction reports when it fails.
pub open spec fn spec_tensor_extract_err(c: Chunk) -> ExtractError {
    if c.components@.len() == 0 {
        ExtractError::NoComponents
    } else if !tensor_decode_ok(payload_rows(c)) {
        ExtractError::UnsupportedTag(first_undecodable_tag(payload_rows(c)))
    } else {
        ExtractError::NonRectangular
    }
}

/// Concatenate decoded buffer rows into one flat row.
fn flatten_rows(vals: &Vec<Vec<u64>>) -> (r: Vec<u64>)
    ensures
        r@ == concat_rows(vals@.map_values(|v: Vec<u64>| v@)),
{
    let mut r: Vec<u64> = Vec::new();
    let n = vals.len();
    let mut i: usize = 0;
    while i < n
        invariant
            i <= n,
            n == vals@.len(),
            r@ == concat_rows(vals@.map_values(|v: Vec<u64>| v@).take(i as int)),
        decreases n - i,
    {
        let m = vals[i].len();
        let mut j: usize = 0;
        while j < m
            invariant
                j <= m,
                i < n,
                n == vals@.len(),
                m == vals@[i as int]@.len(),
                r@ == concat_rows(vals@.map_values(|v: Vec<u64>| v@).take(i as int)) + vals@[
                    i as int
                ]@.take(j as int),
            decreases m - j,
        {
            r.push(vals[i][j]);
            proof {
                assert(vals@[i as int]@.take(j + 1) =~= vals@[i as int]@.take(j as int).push(
                    vals@[i as int]@[j as int],
                ));
            }
            j = j + 1;
        }
        proof {
            let s = vals@.map_values(|v: Vec<u64>| v@);
            assert(s.take(i + 1).drop_last() =~= s.take(i as int));
            assert(s.take(i + 1).last() == s[i as int]);
            assert(vals@[i as int]@.take(m as int) =~= vals@[i as int]@);
        }
        i = i + 1;
    }
    proof {
        assert(vals@.map_values(|v: Vec<u64>| v@).take(n as int) =~= vals@.map_values(
            |v: Vec<u64>| v@,
        ));
    }
    r
}

/// One step of `tensor_rows_model` along a prefix of the payload rows.
proof fn lemma_tensor_model_step(rows: Seq<RowValue>, i: int)
    requires
        0 <= i < rows.len(),
    ensures
        tensor_rows_model(rows.take(i + 1)) == if tensor_row_ok(rows[i]) {
            tensor_rows_model(rows.take(i)).push(flat_row(rows[i]))
        } else {
            tensor_rows_model(rows.take(i))
        },
{
    let t = rows.take(i + 1);
    assert(t.drop_last() =~= rows.take(i));
    assert(t.last() == rows[i]);
}

/// Walk the payload column (the first component column); every row that is
/// a structured record with a union buffer at ordinal 1 contributes its
/// decoded flat row, rows that fail that downcast are dropped, and an
/// unsupported union tag aborts the whole extraction. The collected rows
/// are assembled into a rectangular matrix.
pub fn extract_tensor(chunk: &Chunk) -> (r: Result<Matrix, ExtractError>)
    requires
        chunk.wf(),
    ensures
        r is Ok <==> spec_tensor_extract_ok(*chunk),
        match r {
            Ok(m) => m@ == tensor_rows_model(payload_rows(*chunk)) && m.wf(),
            Err(e) => e == spec_tensor_extract_err(*chunk),
        },
{
    if chunk.components.len() == 0 {
        return Err(ExtractError::NoComponents);
    }
    let col: &ComponentColumn = &chunk.components[0];
    let n = col.rows.len();
    let ghost rows = payload_rows(*chunk);
    let mut out: Vec<Vec<u64>> = Vec::new();
    let mut i: usize = 0;
    while i < n
        invariant
            i <= n,
            n == rows.len(),
            chunk.components@.len() > 0,
            rows == payload_rows(*chunk),
            chunk.wf(),
            col == &chunk.components@[0],
            out@.map_values(|v: Vec<u64>| v@) == tensor_rows_model(rows.take(i as int)),
            forall|k: int|
                0 <= k < i && tensor_row_ok(#[trigger] rows[k])
                    ==> row_buffer(rows[k]).all_tags_supported(),
        decreases n - i,
    {
        let ghost prev = out@.map_values(|v: Vec<u64>| v@);
        match &col.rows[i] {
            RowValue::Struct(fields) => {
                if fields.len() >= 2 {
                    match &fields[1] {
                        FieldValue::Buffer(u) => {
                            proof {
                                assert(rows[i as int].wf());
                                assert(fields@[1].wf());
                                assert(tensor_row_ok(rows[i as int]));
                                assert(row_buffer(rows[i as int]) == *u);
                            }
                            match decode_union(u) {
                                Ok(vals) => {
                                    let flat = flatten_rows(&vals);
                                    proof {
                                        assert(vals@.map_values(|v: Vec<u64>| v@) =~= decoded_rows(
                                            *u,
                                        ));
                                        assert(flat@ == flat_row(rows[i as int]));
                                    }
                                    out.push(flat);
                                    proof {
                                        assert(out@.map_values(|v: Vec<u64>| v@) =~= prev.push(
                                            flat@,
                                        ));
                                    }
                                },
                                Err(DecodeError::UnsupportedTag(t)) => {
                                    proof {
                                        assert(is_first_undecodable_row(rows, i as int));
                                        let j = choose|j: int| is_first_undecodable_row(rows, j);
                                        if j < i {
                                            assert(row_buffer(rows[j]).all_tags_supported());
                                        }
                                        if i < j {
                                            assert(row_buffer(
                                                rows[i as int],
                                            ).all_tags_supported());
                                        }
                                        assert(j == i as int);
                                        assert(first_undecodable_tag(rows) == first_bad_tag(*u));
                                    }
                                    return Err(ExtractError::UnsupportedTag(t));
                                },
                            }
                        },
                        FieldValue::Other => {
                            proof {
                                assert(!tensor_row_ok(rows[i as int]));
                            }
                        },
                    }
                } else {
                    proof {
                        assert(!tensor_row_ok(rows[i as int]));
                    }
                }
            },
            RowValue::Floats(_) => {
                proof {
                    assert(!tensor_row_ok(rows[i as int]));
                }
            },
            RowValue::Texts(_) => {
                proof {
                    assert(!tensor_row_ok(rows[i as int]));
                }
            },
            RowValue::Other => {
                proof {
                    assert(!tensor_row_ok(rows[i as int]));
                }
            },
        }
        proof {
            lemma_tensor_model_step(rows, i as int);
        }
        i = i + 1;
    }
    proof {
        assert(rows.take(n as int) =~= rows);
    }
    match Matrix::new(out) {
        Some(m) => Ok(m),
        None => Err(ExtractError::NonRectangular),
    }
}

/// A scalar row decodes: it is a direct numeric array with at least its
/// single value.
pub open spec fn scalar_row_ok(row: RowValue) -> bool {
    match row {
        RowValue::Floats(v) => v@.len() >= 1,
        _ => false,
    }
}

/// The single stored value of a scalar row (meaningful only where
/// `scalar_row_ok`).
pub open spec fn scalar_row_value(row: RowValue) -> u64 {
    match row {
        RowValue::Floats(v) => v@[0],
        _ => arbitrary(),
    }
}

/// Every payload row holds a direct numeric value.
pub open spec fn scalar_rows_ok(rows: Seq<RowValue>) -> bool {
    forall|i: int| 0 <= i < rows.len() ==> scalar_row_ok(#[trigger] rows[i])
}

/// The vector a scalar payload column yields: one value per chunk row.
pub open spec fn scalar_values_model(rows: Seq<RowValue>) -> Seq<u64> {
    Seq::new(rows.len(), |i: int| scalar_row_value(rows[i]))
}

/// Scalar extraction succeeds: there is a payload column and every row
/// holds a direct numeric value.
pub open spec fn spec_scalar_extract_ok(c: Chunk) -> bool {
    c.components@.len() > 0 && scalar_rows_ok(payload_rows(c))
}

/// Which error scalar extraction reports when it fails.
pub open spec fn spec_scalar_extract_err(c: Chunk) -> ExtractError {
    if c.components@.len() == 0 {
        ExtractError::NoComponents
    } else {
        ExtractError::TypeMismatch
    }
}

/// Walk the payload column; every row must hold a direct float64 value, and
/// its single stored value (index 0) is collected. A row of any other
/// physical representation is a hard error for the whole extraction.
pub fn extract_scalar(chunk: &Chunk) -> (r: Result<Vec<u64>, ExtractError>)
    requires
        chunk.wf(),
    ensures
        r is Ok <==> spec_scalar_extract_ok(*chunk),
        match r {
            Ok(v) => v@ == scalar_values_model(payload_rows(*chunk)),
            Err(e) => e == spec_scalar_extract_err(*chunk),
        },
{
    if chunk.components.len() == 0 {
        return Err(ExtractError::NoComponents);
    }
    let col: &ComponentColumn = &chunk.components[0];
    let n = col.rows.len();
    let ghost rows = payload_rows(*chunk);
    let mut out: Vec<u64> = Vec::new();
    let mut i: usize = 0;
    while i < n
        invariant
            i <= n,
            n == rows.len(),
            chunk.components@.len() > 0,
            rows == payload_rows(*chunk),
            col == &chunk.components@[0],
            out@.len() == i,
            forall|k: int| 0 <= k < i ==> scalar_row_ok(#[trigger] rows[k]),
            forall|k: int| 0 <= k < i ==> out@[k] == scalar_row_value(rows[k]),
        decreases n - i,
    {
        match &col.rows[i] {
            RowValue::Floats(v) => {
                if v.len() == 0 {
                    return Err(ExtractError::TypeMismatch);
                }
                out.push(v[0]);
            },
            _ => {
                return Err(ExtractError::TypeMismatch);
            },
        }
        i = i + 1;
    }
    proof {
        assert(out@ =~= scalar_values_model(rows));
    }
    Ok(out)
}

/// Copy a vector of timestamps.
fn copy_i64s(v: &Vec<i64>) -> (r: Vec<i64>)
    ensures
        r@ == v@,
{
    let mut r: Vec<i64> = Vec::new();
    let n = v.len();
    let mut i: usize = 0;
    while i < n
        invariant
            i <= n,
            n == v@.len(),
            r@ == v@.subrange(0, i as int),
        decreases n - i,
    {
        r.push(v[i]);
        i = i + 1;
    }
    proof {
        assert(v@.subrange(0, n as int) =~= v@);
    }
    r
}

/// Copy each timeline of the chunk into an owned (name, times) column, in
/// the chunk's native order.
pub fn extract_timelines(chunk: &Chunk) -> (r: Vec<TimeColumn>)
    ensures
        timelines_view(r@) == timelines_view(chunk.timelines@),
{
    let n = chunk.timelines.len();
    let mut r: Vec<TimeColumn> = Vec::new();
    let mut i: usize = 0;
    while i < n
        invariant
            i <= n,
            n == chunk.timelines@.len(),
            r@.len() == i,
            forall|k: int|
                0 <= k < i ==> (#[trigger] r@[k]).name@ == chunk.timelines@[k].name@
                    && r@[k].times@ == chunk.timelines@[k].times@,
        decreases n - i,
    {
        let t: &TimeColumn = &chunk.timelines[i];
        r.push(TimeColumn { name: t.name.clone(), times: copy_i64s(&t.times) });
        i = i + 1;
    }
    proof {
        assert(timelines_view(r@) =~= timelines_view(chunk.timelines@));
    }
    r
}

/// The first component column declared under the given name, scanning in
/// the store's native column ordering.
pub open spec fn find_named(comps: Seq<ComponentColumn>, name: Seq<char>) -> Option<
    ComponentColumn,
>
    decreases comps.len(),
{
    if comps.len() == 0 {
        Option::None
    } else if comps[0].name@ == name {
        Option::Some(comps[0])
    } else {
        find_named(comps.skip(1), name)
    }
}

/// Scanning past a prefix without the name does not change what is found.
proof fn lemma_find_named_skip(comps: Seq<ComponentColumn>, name: Seq<char>, i: int)
    requires
        0 <= i <= comps.len(),
        forall|k: int| 0 <= k < i ==> (#[trigger] comps[k].name@) != name,
    ensures
        find_named(comps, name) == find_named(comps.skip(i), name),
    decreases i,
{
    if i == 0 {
        assert(comps.skip(0) =~= comps);
    } else {
        assert(comps[0].name@ != name);
        assert forall|k: int| 0 <= k < i - 1 implies (#[trigger] comps.skip(1)[k].name@)
            != name by {
            assert(comps.skip(1)[k] == comps[k + 1]);
        }
        lemma_find_named_skip(comps.skip(1), name, i - 1);
        assert(comps.skip(1).skip(i - 1) =~= comps.skip(i));
    }
}

/// The first string stored in a column: element 0 of row 0, where row 0 is
/// a list of strings with at least one element.
pub open spec fn column_string(col: ComponentColumn) -> Option<Seq<char>> {
    if col.rows@.len() > 0 {
        match col.rows@[0] {
            RowValue::Texts(l) => if l@.len() > 0 {
                Option::Some(l@[0]@)
            } else {
                Option::None
            },
            _ => Option::None,
        }
    } else {
        Option::None
    }
}

/// The string a metadata field reports: the first string of the column
/// declared under `name`, or the sentinel `default` where the column is
/// absent or holds no string.
pub open spec fn meta_string(c: Chunk, name: Seq<char>, default: Seq<char>) -> Seq<char> {
    match find_named(c.components@, name) {
        Option::Some(col) => match column_string(col) {
            Option::Some(s) => s,
            Option::None => default,
        },
        Option::None => default,
    }
}

/// The metadata record a chunk extracts to.
pub open spec fn meta_record_view(c: Chunk) -> MetaRecordView {
    MetaRecordView {
        entity_path: c.entity_path@,
        media_type: meta_string(c, media_type_component(), "unknown"@),
        text: meta_string(c, text_component(), "no text"@),
    }
}

/// Read the first string of the component column declared under `name`, or
/// the sentinel `default` where the column is absent or holds no string.
fn component_first_string(chunk: &Chunk, name: &str, default: &str) -> (r: String)
    ensures
        r@ == meta_string(*chunk, name@, default@),
{
    let n = chunk.components.len();
    let mut i: usize = 0;
    while i < n
        invariant
            i <= n,
            n == chunk.components@.len(),
            forall|k: int| 0 <= k < i ==> (#[trigger] chunk.components@[k].name@) != name@,
        decreases n - i,
    {
        let col: &ComponentColumn = &chunk.components[i];
        if str_eq(col.name.as_str(), name) {
            proof {
                lemma_find_named_skip(chunk.components@, name@, i as int);
                assert(chunk.components@.skip(i as int)[0] == chunk.components@[i as int]);
                assert(find_named(chunk.components@, name@) == Option::Some(
                    chunk.components@[i as int],
                ));
            }
            if col.rows.len() > 0 {
                match &col.rows[0] {
                    RowValue::Texts(l) => {
                        if l.len() > 0 {
                            return l[0].clone();
                        }
                    },
                    _ => {},
                }
            }
            return default.to_owned();
        }
        i = i + 1;
    }
    proof {
        lemma_find_named_skip(chunk.components@, name@, n as int);
        assert(chunk.components@.skip(n as int).len() == 0);
    }
    default.to_owned()
}

/// Extract a metadata record from a chunk: the media type and the text are
/// the first strings of their columns, with the sentinels `"unknown"` and
/// `"no text"` where a column is absent. Only row 0 is consulted: metadata
/// chunks are single-valued per chunk.
pub fn extract_metadata(chunk: &Chunk) -> (m: MetaChunk)
    ensures
        m@ == meta_record_view(*chunk),
{
    let media_type = component_first_string(chunk, "rerun.components.MediaType", "unknown");
    let text = component_first_string(chunk, "rerun.components.Text", "no text");
    MetaChunk::new(chunk.entity_path.clone(), media_type, text)
}

/// Whether extracting the chunk's numeric payload succeeds, under the fixed
/// priority order: tensor before scalar.
pub open spec fn spec_chunk_extract_ok(c: Chunk) -> bool {
    if spec_is_tensor_chunk(c) {
        spec_tensor_extract_ok(c)
    } else if spec_is_scalar_chunk(c) {
        spec_scalar_extract_ok(c)
    } else {
        false
    }
}

/// Which error extracting the chunk's numeric payload reports.
pub open spec fn spec_chunk_extract_err(c: Chunk) -> ExtractError {
    if spec_is_tensor_chunk(c) {
        spec_tensor_extract_err(c)
    } else if spec_is_scalar_chunk(c) {
        spec_scalar_extract_err(c)
    } else {
        ExtractError::UnsupportedChunkType
    }
}

/// The record a data chunk extracts to.
pub open spec fn chunk_record_view(c: Chunk) -> DataRecordView {
    DataRecordView {
        entity_path: c.entity_path@,
        timelines: timelines_view(c.timelines@),
        data: if spec_is_tensor_chunk(c) {
            DataView::Tensor(tensor_rows_model(payload_rows(c)))
        } else {
            DataView::Scalar(scalar_values_model(payload_rows(c)))
        },
    }
}

/// Extract a full data record from a chunk: classify it (tensor before
/// scalar), run the matching extractor, and carry the entity path and the
/// timelines over.
pub fn to_data_chunk(chunk: &Chunk) -> (r: Result<DataChunk, ExtractError>)
    requires
        chunk.wf(),
    ensures
        r is Ok <==> spec_chunk_extract_ok(*chunk),
        match r {
            Ok(dc) => dc@ == chunk_record_view(*chunk),
            Err(e) => e == spec_chunk_extract_err(*chunk),
        },
{
    let data = if is_tensor_chunk(chunk) {
        match extract_tensor(chunk) {
            Ok(m) => Data::Tensor { data: m },
            Err(e) => {
                return Err(e);
            },
        }
    } else if is_scalar_chunk(chunk) {
        match extract_scalar(chunk) {
            Ok(v) => Data::Scalar { data: v },
            Err(e) => {
                return Err(e);
            },
        }
    } else {
        return Err(ExtractError::UnsupportedChunkType);
    };
    let timelines = extract_timelines(chunk);
    Ok(DataChunk::new(chunk.entity_path.clone(), timelines, data))
}

} // verus!
