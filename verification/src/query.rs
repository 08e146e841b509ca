//! The query orchestrator: stream the selected entity database's messages,
//! filter the reconstructed chunks by payload kind and by entity path, run
//! the matching extractor, and accumulate the records in stream order.

use vstd::prelude::*;

use crate::classify::{
    is_data_chunk, is_meta_chunk, is_scalar_chunk, is_tensor_chunk, spec_is_data_chunk,
    spec_is_meta_chunk, spec_is_scalar_chunk, spec_is_tensor_chunk,
};
use crate::extract::{
    chunk_record_view, extract_metadata, meta_record_view, spec_chunk_extract_ok, to_data_chunk,
};
use crate::model::{Bundle, Chunk, EntityDatabase};
use crate::records::{DataChunk, DataRecordView, MetaChunk, MetaRecordView};
use crate::text::{spec_contains, str_contains, str_eq};

verus! {

/// A query failed.
#[derive(Clone, Copy, Debug, PartialEq, Eq, Structural)]
pub enum QueryError {
    /// After all filtering, zero records matched. Distinguished from an
    /// empty success so that callers can tell "filter too narrow" apart
    /// from a legitimate result.
    EmptyResult,
}

/// What the payload-kind filter accepts: `"scalar"` and `"tensor"` ask for
/// that kind's presence predicate, the empty string accepts every chunk,
/// and any other string accepts nothing.
pub open spec fn spec_matches_data_type(c: Chunk, f: Seq<char>) -> bool {
    if f == "scalar"@ {
        spec_is_scalar_chunk(c)
    } else if f == "tensor"@ {
        spec_is_tensor_chunk(c)
    } else if f.len() == 0 {
        true
    } else {
        false
    }
}

/// Whether the chunk passes the payload-kind filter.
pub fn matches_data_type(chunk: &Chunk, data_type_filter: &str) -> (r: bool)
    ensures
        r == spec_matches_data_type(*chunk, data_type_filter@),
{
    if str_eq(data_type_filter, "scalar") {
        is_scalar_chunk(chunk)
    } else if str_eq(data_type_filter, "tensor") {
        is_tensor_chunk(chunk)
    } else {
        data_type_filter.is_empty()
    }
}

/// What the entity-path filter accepts: the empty string accepts every
/// chunk; a non-empty string accepts the chunks whose entity path contains
/// it as a substring.
pub open spec fn spec_matches_entity_path(c: Chunk, f: Seq<char>) -> bool {
    f.len() == 0 || spec_contains(c.entity_path@, f)
}

/// Whether the chunk passes the entity-path filter.
pub fn matches_entity_path(chunk: &Chunk, entity_path_filter: &str) -> (r: bool)
    ensures
        r == spec_matches_entity_path(*chunk, entity_path_filter@),
{
    if entity_path_filter.is_empty() {
        true
    } else {
        str_contains(chunk.entity_path.as_str(), entity_path_filter)
    }
}

/// The database holds some entity path containing `/action`.
pub open spec fn spec_is_action_db(db: EntityDatabase) -> bool {
    exists|i: int|
        0 <= i < db.entity_paths@.len() && spec_contains(
            (#[trigger] db.entity_paths@[i])@,
            "/action"@,
        )
}

/// Whether the database holds some entity path containing `/action`.
pub fn is_action_entity_db(db: &EntityDatabase) -> (r: bool)
    ensures
        r == spec_is_action_db(*db),
{
    let n = db.entity_paths.len();
    let mut i: usize = 0;
    while i < n
        invariant
            i <= n,
            n == db.entity_paths@.len(),
            forall|k: int|
                0 <= k < i ==> !spec_contains((#[trigger] db.entity_paths@[k])@, "/action"@),
        decreases n - i,
    {
        if str_contains(db.entity_paths[i].as_str(), "/action") {
            return true;
        }
        i = i + 1;
    }
    false
}

/// The first entity database holding an `/action` entity path.
pub open spec fn find_action_db(dbs: Seq<EntityDatabase>) -> Option<EntityDatabase>
    decreases dbs.len(),
{
    if dbs.len() == 0 {
        Option::None
    } else if spec_is_action_db(dbs[0]) {
        Option::Some(dbs[0])
    } else {
        find_action_db(dbs.skip(1))
    }
}

/// Scanning past a prefix without an action database does not change what
/// is found.
proof fn lemma_find_action_db_skip(dbs: Seq<EntityDatabase>, i: int)
    requires
        0 <= i <= dbs.len(),
        forall|k: int| 0 <= k < i ==> !spec_is_action_db(#[trigger] dbs[k]),
    ensures
        find_action_db(dbs) == find_action_db(dbs.skip(i)),
    decreases i,
{
    if i == 0 {
        assert(dbs.skip(0) =~= dbs);
    } else {
        assert(!spec_is_action_db(dbs[0]));
        assert forall|k: int| 0 <= k < i - 1 implies !spec_is_action_db(
            #[trigger] dbs.skip(1)[k],
        ) by {
            assert(dbs.skip(1)[k] == dbs[k + 1]);
        }
        lemma_find_action_db_skip(dbs.skip(1), i - 1);
        assert(dbs.skip(1).skip(i - 1) =~= dbs.skip(i));
    }
}

/// The bundle holds an entity database with an `/action` entity path.
pub open spec fn spec_has_action_db(b: Bundle) -> bool {
    find_action_db(b.entity_dbs@) is Some
}

/// The selected database of a bundle (meaningful only where
/// `spec_has_action_db`).
pub open spec fn spec_action_db(b: Bundle) -> EntityDatabase {
    match find_action_db(b.entity_dbs@) {
        Option::Some(db) => db,
        Option::None => arbitrary(),
    }
}

/// Find the first entity database holding an `/action` entity path.
fn find_action_index(bundle: &Bundle) -> (r: Option<usize>)
    ensures
        match r {
            Some(i) => {
                &&& i < bundle.entity_dbs@.len()
                &&& find_action_db(bundle.entity_dbs@) == Option::Some(
                    bundle.entity_dbs@[i as int],
                )
            },
            None => find_action_db(bundle.entity_dbs@) is None,
        },
{
    let n = bundle.entity_dbs.len();
    let mut i: usize = 0;
    while i < n
        invariant
            i <= n,
            n == bundle.entity_dbs@.len(),
            forall|k: int| 0 <= k < i ==> !spec_is_action_db(#[trigger] bundle.entity_dbs@[k]),
        decreases n - i,
    {
        if is_action_entity_db(&bundle.entity_dbs[i]) {
            proof {
                lemma_find_action_db_skip(bundle.entity_dbs@, i as int);
                assert(bundle.entity_dbs@.skip(i as int)[0] == bundle.entity_dbs@[i as int]);
            }
            return Some(i);
        }
        i = i + 1;
    }
    proof {
        lemma_find_action_db_skip(bundle.entity_dbs@, n as int);
        assert(bundle.entity_dbs@.skip(n as int).len() == 0);
    }
    None
}

/// Whether the bundle holds an entity database with an `/action` entity
/// path. Callers test this before selecting the database.
pub fn has_action_entity_db(bundle: &Bundle) -> (r: bool)
    ensures
        r == spec_has_action_db(*bundle),
{
    match find_action_index(bundle) {
        Some(_) => true,
        None => false,
    }
}

/// Select the first entity database holding an `/action` entity path.
pub fn get_action_entity_db(bundle: &Bundle) -> (db: &EntityDatabase)
    requires
        spec_has_action_db(*bundle),
    ensures
        *db == spec_action_db(*bundle),
        exists|i: int|
            0 <= i < bundle.entity_dbs@.len() && *db == #[trigger] bundle.entity_dbs@[i],
{
    match find_action_index(bundle) {
        Some(i) => &bundle.entity_dbs[i],
        None => {
            proof {
                assert(false);
            }
            &bundle.entity_dbs[0]
        },
    }
}

/// All entity paths of all databases of a bundle, concatenated in bundle
/// order.
pub open spec fn all_entity_paths(dbs: Seq<EntityDatabase>) -> Seq<Seq<char>>
    decreases dbs.len(),
{
    if dbs.len() == 0 {
        Seq::empty()
    } else {
        all_entity_paths(dbs.drop_last()) + dbs.last().entity_paths@.map_values(|p: String| p@)
    }
}

/// One step of `all_entity_paths` along a prefix of the databases.
proof fn lemma_all_entity_paths_step(dbs: Seq<EntityDatabase>, d: int)
    requires
        0 <= d < dbs.len(),
    ensures
        all_entity_paths(dbs.take(d + 1)) == all_entity_paths(dbs.take(d))
            + dbs[d].entity_paths@.map_values(|p: String| p@),
{
    let t = dbs.take(d + 1);
    assert(t.drop_last() =~= dbs.take(d));
    assert(t.last() == dbs[d]);
}

/// List every entity path of every entity database in the bundle, in bundle
/// order.
pub fn list_entity_paths(bundle: &Bundle) -> (r: Vec<String>)
    ensures
        r@.map_values(|s: String| s@) == all_entity_paths(bundle.entity_dbs@),
{
    let nd = bundle.entity_dbs.len();
    let mut r: Vec<String> = Vec::new();
    let mut d: usize = 0;
    while d < nd
        invariant
            d <= nd,
            nd == bundle.entity_dbs@.len(),
            r@.map_values(|s: String| s@) == all_entity_paths(bundle.entity_dbs@.take(d as int)),
        decreases nd - d,
    {
        let ghost prefix = all_entity_paths(bundle.entity_dbs@.take(d as int));
        let db: &EntityDatabase = &bundle.entity_dbs[d];
        let np = db.entity_paths.len();
        let mut p: usize = 0;
        while p < np
            invariant
                p <= np,
                np == db.entity_paths@.len(),
                db == &bundle.entity_dbs@[d as int],
                r@.map_values(|s: String| s@) == prefix + db.entity_paths@.map_values(
                    |q: String| q@,
                ).take(p as int),
            decreases np - p,
        {
            r.push(db.entity_paths[p].clone());
            proof {
                let paths = db.entity_paths@.map_values(|q: String| q@);
                assert(r@.map_values(|s: String| s@) =~= (prefix + paths.take(p as int)).push(
                    paths[p as int],
                ));
                assert(prefix + paths.take(p + 1) =~= (prefix + paths.take(p as int)).push(
                    paths[p as int],
                ));
            }
            p = p + 1;
        }
        proof {
            let paths = db.entity_paths@.map_values(|q: String| q@);
            assert(paths.take(np as int) =~= paths);
            lemma_all_entity_paths_step(bundle.entity_dbs@, d as int);
        }
        d = d + 1;
    }
    proof {
        assert(bundle.entity_dbs@.take(nd as int) =~= bundle.entity_dbs@);
    }
    r
}

/// The chunk passes both query filters and carries numeric payload data.
pub open spec fn chunk_passes_data(c: Chunk, dtf: Seq<char>, epf: Seq<char>) -> bool {
    &&& spec_matches_data_type(c, dtf)
    &&& spec_matches_entity_path(c, epf)
    &&& spec_is_data_chunk(c)
}

/// The data records a message stream yields under the two filters: one
/// record per reconstructed chunk that passes both filters and extracts, in
/// stream order. Messages without a chunk and chunks whose extraction fails
/// are skipped.
pub open spec fn data_records_model(
    msgs: Seq<Option<Chunk>>,
    dtf: Seq<char>,
    epf: Seq<char>,
) -> Seq<DataRecordView>
    decreases msgs.len(),
{
    if msgs.len() == 0 {
        Seq::empty()
    } else {
        let rest = data_records_model(msgs.drop_last(), dtf, epf);
        match msgs.last() {
            Option::Some(c) => if chunk_passes_data(c, dtf, epf) && spec_chunk_extract_ok(c) {
                rest.push(chunk_record_view(c))
            } else {
                rest
            },
            Option::None => rest,
        }
    }
}

/// One step of `data_records_model` along a prefix of the stream.
proof fn lemma_data_model_step(msgs: Seq<Option<Chunk>>, dtf: Seq<char>, epf: Seq<char>, i: int)
    requires
        0 <= i < msgs.len(),
    ensures
        data_records_model(msgs.take(i + 1), dtf, epf) == match msgs[i] {
            Option::Some(c) => if chunk_passes_data(c, dtf, epf) && spec_chunk_extract_ok(c) {
                data_records_model(msgs.take(i), dtf, epf).push(chunk_record_view(c))
            } else {
                data_records_model(msgs.take(i), dtf, epf)
            },
            Option::None => data_records_model(msgs.take(i), dtf, epf),
        },
{
    let t = msgs.take(i + 1);
    assert(t.drop_last() =~= msgs.take(i));
    assert(t.last() == msgs[i]);
}

/// Query the numeric records of the bundle's selected entity database:
/// stream its messages, keep the chunks that pass the payload-kind filter
/// and the entity-path filter and carry numeric data, extract each into a
/// record, and return the records in stream order. Chunks whose extraction
/// fails are skipped. Yields `EmptyResult` instead of an empty list when
/// nothing matched.
pub fn query_data_entities(
    bundle: &Bundle,
    data_type_filter: &str,
    entity_path_filter: &str,
) -> (r: Result<Vec<DataChunk>, QueryError>)
    requires
        bundle.wf(),
        spec_has_action_db(*bundle),
    ensures
        ({
            let recs = data_records_model(
                spec_action_db(*bundle).messages@,
                data_type_filter@,
                entity_path_filter@,
            );
            match r {
                Ok(v) => v@.map_values(|dc: DataChunk| dc@) == recs && recs.len() > 0,
                Err(QueryError::EmptyResult) => recs.len() == 0,
            }
        }),
{
    let db = get_action_entity_db(bundle);
    let ghost msgs = db.messages@;
    let n = db.messages.len();
    let mut out: Vec<DataChunk> = Vec::new();
    let mut i: usize = 0;
    while i < n
        invariant
            i <= n,
            n == msgs.len(),
            msgs == spec_action_db(*bundle).messages@,
            db.messages@ == msgs,
            bundle.wf(),
            exists|k: int|
                0 <= k < bundle.entity_dbs@.len() && *db == #[trigger] bundle.entity_dbs@[k],
            out@.map_values(|dc: DataChunk| dc@) == data_records_model(
                msgs.take(i as int),
                data_type_filter@,
                entity_path_filter@,
            ),
        decreases n - i,
    {
        let ghost prev = out@.map_values(|dc: DataChunk| dc@);
        match &db.messages[i] {
            Some(chunk) => {
                proof {
                    let k = choose|k: int|
                        0 <= k < bundle.entity_dbs@.len() && *db == bundle.entity_dbs@[k];
                    assert(bundle.entity_dbs@[k].wf());
                    assert(chunk.wf());
                }
                if matches_data_type(chunk, data_type_filter) && matches_entity_path(
                    chunk,
                    entity_path_filter,
                ) && is_data_chunk(chunk) {
                    match to_data_chunk(chunk) {
                        Ok(dc) => {
                            out.push(dc);
                            proof {
                                assert(out@.map_values(|d: DataChunk| d@) =~= prev.push(
                                    chunk_record_view(*chunk),
                                ));
                            }
                        },
                        Err(_) => {},
                    }
                }
            },
            None => {},
        }
        proof {
            lemma_data_model_step(msgs, data_type_filter@, entity_path_filter@, i as int);
        }
        i = i + 1;
    }
    proof {
        assert(msgs.take(n as int) =~= msgs);
    }
    if out.len() == 0 {
        Err(QueryError::EmptyResult)
    } else {
        Ok(out)
    }
}

/// The chunk passes the metadata query's entity-path filter: the empty
/// string accepts every chunk; a non-empty string accepts exactly the
/// chunks whose whole entity path equals it.
pub open spec fn chunk_passes_meta(c: Chunk, ep: Seq<char>) -> bool {
    (ep.len() == 0 || ep == c.entity_path@) && spec_is_meta_chunk(c)
}

/// The metadata records a message stream yields under the entity-path
/// filter, in stream order.
pub open spec fn meta_records_model(msgs: Seq<Option<Chunk>>, ep: Seq<char>) -> Seq<MetaRecordView>
    decreases msgs.len(),
{
    if msgs.len() == 0 {
        Seq::empty()
    } else {
        let rest = meta_records_model(msgs.drop_last(), ep);
        match msgs.last() {
            Option::Some(c) => if chunk_passes_meta(c, ep) {
                rest.push(meta_record_view(c))
            } else {
                rest
            },
            Option::None => rest,
        }
    }
}

/// One step of `meta_records_model` along a prefix of the stream.
proof fn lemma_meta_model_step(msgs: Seq<Option<Chunk>>, ep: Seq<char>, i: int)
    requires
        0 <= i < msgs.len(),
    ensures
        meta_records_model(msgs.take(i + 1), ep) == match msgs[i] {
            Option::Some(c) => if chunk_passes_meta(c, ep) {
                meta_records_model(msgs.take(i), ep).push(meta_record_view(c))
            } else {
                meta_records_model(msgs.take(i), ep)
            },
            Option::None => meta_records_model(msgs.take(i), ep),
        },
{
    let t = msgs.take(i + 1);
    assert(t.drop_last() =~= msgs.take(i));
    assert(t.last() == msgs[i]);
}

/// Query the metadata records of the bundle's selected entity database:
/// stream its messages, keep the text-carrying chunks whose entity path
/// equals the filter (or all of them, for the empty filter), and extract
/// each into a metadata record, in stream order. Yields `EmptyResult`
/// instead of an empty list when nothing matched.
pub fn query_meta_entities(bundle: &Bundle, entity_path: &str) -> (r: Result<
    Vec<MetaChunk>,
    QueryError,
>)
    requires
        bundle.wf(),
        spec_has_action_db(*bundle),
    ensures
        ({
            let recs = meta_records_model(spec_action_db(*bundle).messages@, entity_path@);
            match r {
                Ok(v) => v@.map_values(|mc: MetaChunk| mc@) == recs && recs.len() > 0,
                Err(QueryError::EmptyResult) => recs.len() == 0,
            }
        }),
{
    let db = get_action_entity_db(bundle);
    let ghost msgs = db.messages@;
    let n = db.messages.len();
    let mut out: Vec<MetaChunk> = Vec::new();
    let mut i: usize = 0;
    while i < n
        invariant
            i <= n,
            n == msgs.len(),
            msgs == spec_action_db(*bundle).messages@,
            db.messages@ == msgs,
            out@.map_values(|mc: MetaChunk| mc@) == meta_records_model(
                msgs.take(i as int),
                entity_path@,
            ),
        decreases n - i,
    {
        let ghost prev = out@.map_values(|mc: MetaChunk| mc@);
        match &db.messages[i] {
            Some(chunk) => {
                let passes = if entity_path.is_empty() {
                    true
                } else {
                    str_eq(entity_path, chunk.entity_path.as_str())
                };
                if passes && is_meta_chunk(chunk) {
                    let mc = extract_metadata(chunk);
                    out.push(mc);
                    proof {
                        assert(out@.map_values(|m: MetaChunk| m@) =~= prev.push(
                            meta_record_view(*chunk),
                        ));
                    }
                }
            },
            None => {},
        }
        proof {
            lemma_meta_model_step(msgs, entity_path@, i as int);
        }
        i = i + 1;
    }
    proof {
        assert(msgs.take(n as int) =~= msgs);
    }
    if out.len() == 0 {
        Err(QueryError::EmptyResult)
    } else {
        Ok(out)
    }
}

} // verus!
