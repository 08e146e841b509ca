//! Properties of the query orchestrator, stated and proved over the
//! spec-level record models that the executable functions' contracts use.

use vstd::prelude::*;

use crate::classify::spec_is_scalar_chunk;
use crate::extract::{
    chunk_record_view, decoded_row_count, spec_chunk_extract_ok, tensor_rows_model,
};
use crate::model::RowValue;
use crate::model::Chunk;
use crate::query::{chunk_passes_data, data_records_model, spec_matches_data_type};
use crate::records::DataRecordView;
use crate::text::spec_contains;

verus! {

/// Record `rec` stems from message `j` of the stream: the message holds a
/// chunk that the scalar presence predicate accepts, and the record is that
/// chunk's extracted record.
pub open spec fn scalar_sourced(msgs: Seq<Option<Chunk>>, rec: DataRecordView, j: int) -> bool {
    &&& 0 <= j < msgs.len()
    &&& match msgs[j] {
        Option::Some(c) => spec_is_scalar_chunk(c) && rec == chunk_record_view(c),
        Option::None => false,
    }
}

/// Running the data query twice over the same message stream with the same
/// filters yields the same records, in content and order: the source is
/// read-only and the result is a function of the stream and the filters
/// alone.
pub proof fn lemma_query_data_deterministic(
    msgs: Seq<Option<Chunk>>,
    dtf: Seq<char>,
    epf: Seq<char>,
    r1: Seq<DataRecordView>,
    r2: Seq<DataRecordView>,
)
    requires
        r1 == data_records_model(msgs, dtf, epf),
        r2 == data_records_model(msgs, dtf, epf),
    ensures
        r1 == r2,
{
}

/// The matrix a tensor payload column yields has one row per payload row
/// that decoded without a downcast failure.
pub proof fn lemma_tensor_row_count(rows: Seq<RowValue>)
    ensures
        tensor_rows_model(rows).len() == decoded_row_count(rows),
    decreases rows.len(),
{
    if rows.len() > 0 {
        lemma_tensor_row_count(rows.drop_last());
    }
}

/// A record's source message survives extending the stream by one message.
proof fn lemma_scalar_sourced_extend(msgs: Seq<Option<Chunk>>, rec: DataRecordView, j: int)
    requires
        msgs.len() > 0,
        scalar_sourced(msgs.drop_last(), rec, j),
    ensures
        scalar_sourced(msgs, rec, j),
{
    assert(msgs.drop_last()[j] == msgs[j]);
}

/// Under the scalar payload-kind filter, every returned record stems from a
/// chunk that the scalar presence predicate accepts.
pub proof fn lemma_scalar_filter_sound(msgs: Seq<Option<Chunk>>, epf: Seq<char>, k: int)
    requires
        0 <= k < data_records_model(msgs, "scalar"@, epf).len(),
    ensures
        exists|j: int| scalar_sourced(msgs, data_records_model(msgs, "scalar"@, epf)[k], j),
    decreases msgs.len(),
{
    let recs = data_records_model(msgs, "scalar"@, epf);
    let prev = msgs.drop_last();
    let prevrecs = data_records_model(prev, "scalar"@, epf);
    match msgs.last() {
        Option::Some(c) => {
            if chunk_passes_data(c, "scalar"@, epf) && spec_chunk_extract_ok(c) && k
                == prevrecs.len() {
                assert(spec_matches_data_type(c, "scalar"@));
                assert(spec_is_scalar_chunk(c));
                assert(recs[k] == chunk_record_view(c));
                assert(scalar_sourced(msgs, recs[k], msgs.len() - 1));
            } else {
                lemma_scalar_filter_sound(prev, epf, k);
                let j = choose|j: int| scalar_sourced(prev, prevrecs[k], j);
                lemma_scalar_sourced_extend(msgs, prevrecs[k], j);
            }
        },
        Option::None => {
            lemma_scalar_filter_sound(prev, epf, k);
            let j = choose|j: int| scalar_sourced(prev, prevrecs[k], j);
            lemma_scalar_sourced_extend(msgs, prevrecs[k], j);
        },
    }
}

/// Under a non-empty entity-path filter, every returned record's entity
/// path contains the filter as a substring.
pub proof fn lemma_entity_path_filter_sound(
    msgs: Seq<Option<Chunk>>,
    dtf: Seq<char>,
    epf: Seq<char>,
    k: int,
)
    requires
        epf.len() > 0,
        0 <= k < data_records_model(msgs, dtf, epf).len(),
    ensures
        spec_contains(data_records_model(msgs, dtf, epf)[k].entity_path, epf),
    decreases msgs.len(),
{
    let prev = msgs.drop_last();
    let prevrecs = data_records_model(prev, dtf, epf);
    match msgs.last() {
        Option::Some(c) => {
            if chunk_passes_data(c, dtf, epf) && spec_chunk_extract_ok(c) && k == prevrecs.len() {
                assert(data_records_model(msgs, dtf, epf)[k] == chunk_record_view(c));
            } else {
                lemma_entity_path_filter_sound(prev, dtf, epf, k);
            }
        },
        Option::None => {
            lemma_entity_path_filter_sound(prev, dtf, epf, k);
        },
    }
}

} // verus!
