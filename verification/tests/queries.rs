use requery::model::{Bundle, Chunk, ComponentColumn, EntityDatabase, FieldValue, RowValue,
    TimeColumn, UnionColumn};
use requery::query::{
    get_action_entity_db, has_action_entity_db, is_action_entity_db, list_entity_paths,
    matches_data_type, matches_entity_path, query_data_entities, query_meta_entities, QueryError,
};
use requery::records::{Data, DataChunk, Matrix, MetaChunk};
use requery::text::{str_contains, str_eq};

fn q_tensor_row(values: Vec<f64>) -> RowValue {
    RowValue::Struct(vec![
        FieldValue::Other,
        FieldValue::Buffer(UnionColumn {
            tags: vec![11],
            offsets: None,
            float_lists: vec![values.into_iter().map(f64::to_bits).collect()],
        }),
    ])
}

fn q_tensor_chunk(entity_path: &str, rows: Vec<Vec<f64>>, timelines: Vec<(&str, Vec<i64>)>) -> Chunk {
    Chunk {
        entity_path: entity_path.to_string(),
        timelines: timelines
            .into_iter()
            .map(|(n, times)| TimeColumn { name: n.to_string(), times })
            .collect(),
        components: vec![ComponentColumn {
            name: "rerun.components.TensorData".to_string(),
            rows: rows.into_iter().map(q_tensor_row).collect(),
        }],
    }
}

fn q_scalar_chunk(entity_path: &str, values: Vec<f64>) -> Chunk {
    Chunk {
        entity_path: entity_path.to_string(),
        timelines: Vec::new(),
        components: vec![ComponentColumn {
            name: "rerun.components.Scalar".to_string(),
            rows: values
                .into_iter()
                .map(|v| RowValue::Floats(vec![v.to_bits()]))
                .collect(),
        }],
    }
}

fn q_meta_chunk(entity_path: &str, media_type: &str, text: &str) -> Chunk {
    Chunk {
        entity_path: entity_path.to_string(),
        timelines: Vec::new(),
        components: vec![
            ComponentColumn {
                name: "rerun.components.MediaType".to_string(),
                rows: vec![RowValue::Texts(vec![media_type.to_string()])],
            },
            ComponentColumn {
                name: "rerun.components.Text".to_string(),
                rows: vec![RowValue::Texts(vec![text.to_string()])],
            },
        ],
    }
}

fn action_bundle(chunks: Vec<Chunk>) -> Bundle {
    let mut entity_paths: Vec<String> = chunks.iter().map(|c| c.entity_path.clone()).collect();
    entity_paths.push("/robot/action".to_string());
    Bundle {
        entity_dbs: vec![EntityDatabase {
            entity_paths,
            messages: chunks.into_iter().map(Some).collect(),
        }],
    }
}

fn record_payload(dc: &DataChunk) -> Vec<Vec<u64>> {
    match dc.data() {
        Data::Tensor { data } => {
            let mut rows = Vec::new();
            for i in 0..data.row_count() {
                rows.push(data.row(i).clone());
            }
            rows
        }
        Data::Scalar { data } => vec![data.clone()],
    }
}

#[test]
fn query_tensor_end_to_end() {
    let bundle = action_bundle(vec![q_tensor_chunk(
        "/robot/action",
        vec![vec![1.0, 2.0], vec![3.0, 4.0]],
        vec![("tick", vec![0, 1])],
    )]);
    let records = query_data_entities(&bundle, "", "").unwrap();
    assert_eq!(records.len(), 1);
    let rec = &records[0];
    assert_eq!(rec.entity_path(), "/robot/action");
    let timelines = rec.timelines();
    assert_eq!(timelines.len(), 1);
    assert_eq!(timelines[0].name, "tick");
    assert_eq!(timelines[0].times, vec![0, 1]);
    match rec.data() {
        Data::Tensor { data } => {
            assert_eq!(data.row_count(), 2);
            assert_eq!(*data.row(0), vec![1.0f64.to_bits(), 2.0f64.to_bits()]);
            assert_eq!(*data.row(1), vec![3.0f64.to_bits(), 4.0f64.to_bits()]);
        }
        Data::Scalar { .. } => panic!("a tensor chunk must yield a tensor record"),
    }
}

#[test]
fn query_twice_same_records() {
    let bundle = action_bundle(vec![
        q_tensor_chunk("/robot/action", vec![vec![1.0, 2.0]], vec![("tick", vec![0])]),
        q_scalar_chunk("/robot/reward", vec![0.5, 1.5]),
    ]);
    let first = query_data_entities(&bundle, "", "").unwrap();
    let second = query_data_entities(&bundle, "", "").unwrap();
    assert_eq!(first.len(), second.len());
    for (a, b) in first.iter().zip(second.iter()) {
        assert_eq!(a.entity_path(), b.entity_path());
        assert_eq!(a.timelines().len(), b.timelines().len());
        for (ta, tb) in a.timelines().iter().zip(b.timelines().iter()) {
            assert_eq!(ta.name, tb.name);
            assert_eq!(ta.times, tb.times);
        }
        assert_eq!(record_payload(a), record_payload(b));
    }
}

#[test]
fn query_scalar_filter_returns_only_scalars() {
    let bundle = action_bundle(vec![
        q_tensor_chunk("/robot/action", vec![vec![1.0]], Vec::new()),
        q_scalar_chunk("/robot/reward", vec![0.5]),
    ]);
    let records = query_data_entities(&bundle, "scalar", "").unwrap();
    assert_eq!(records.len(), 1);
    assert_eq!(records[0].entity_path(), "/robot/reward");
    match records[0].data() {
        Data::Scalar { data } => assert_eq!(*data, vec![0.5f64.to_bits()]),
        Data::Tensor { .. } => panic!("the scalar filter must not yield a tensor-classified record"),
    }
}

#[test]
fn query_entity_path_filter_substring() {
    let bundle = action_bundle(vec![
        q_scalar_chunk("/robot/sensor_1", vec![0.5]),
        q_scalar_chunk("/robot/sensor_2", vec![1.5]),
    ]);
    let records = query_data_entities(&bundle, "", "sensor_1").unwrap();
    assert_eq!(records.len(), 1);
    assert_eq!(records[0].entity_path(), "/robot/sensor_1");
}

#[test]
fn query_no_match_is_an_error() {
    let bundle = action_bundle(vec![q_scalar_chunk("/robot/reward", vec![0.5])]);
    match query_data_entities(&bundle, "", "/nowhere") {
        Ok(_) => panic!("an unmatched filter must be an error, not an empty success"),
        Err(e) => assert_eq!(e, QueryError::EmptyResult),
    }
}

#[test]
fn query_invalid_kind_filter_matches_nothing() {
    let bundle = action_bundle(vec![q_scalar_chunk("/robot/reward", vec![0.5])]);
    match query_data_entities(&bundle, "vector", "") {
        Ok(_) => panic!("an unknown payload-kind filter must match nothing"),
        Err(e) => assert_eq!(e, QueryError::EmptyResult),
    }
}

#[test]
fn query_skips_failed_extractions() {
    // The first chunk is non-rectangular, so its extraction fails and it is
    // skipped; the stream still yields the second chunk's record.
    let bundle = action_bundle(vec![
        q_tensor_chunk("/robot/action", vec![vec![1.0, 2.0], vec![3.0]], Vec::new()),
        q_scalar_chunk("/robot/reward", vec![0.5]),
    ]);
    let records = query_data_entities(&bundle, "", "").unwrap();
    assert_eq!(records.len(), 1);
    assert_eq!(records[0].entity_path(), "/robot/reward");
}

#[test]
fn query_skips_chunkless_messages() {
    let mut bundle = action_bundle(vec![q_scalar_chunk("/robot/reward", vec![0.5])]);
    bundle.entity_dbs[0].messages.insert(0, None);
    let records = query_data_entities(&bundle, "", "").unwrap();
    assert_eq!(records.len(), 1);
}

#[test]
fn query_meta_exact_path() {
    let bundle = action_bundle(vec![
        q_meta_chunk("/robot/notes", "text/plain", "hello"),
        q_meta_chunk("/robot/extra", "text/plain", "other"),
    ]);
    let records = query_meta_entities(&bundle, "/robot/notes").unwrap();
    assert_eq!(records.len(), 1);
    match &records[0] {
        MetaChunk::Text { entity_path, media_type, text } => {
            assert_eq!(entity_path, "/robot/notes");
            assert_eq!(media_type, "text/plain");
            assert_eq!(text, "hello");
        }
    }
}

#[test]
fn query_meta_path_is_not_a_substring_match() {
    let bundle = action_bundle(vec![q_meta_chunk("/robot/notes", "text/plain", "hello")]);
    match query_meta_entities(&bundle, "notes") {
        Ok(_) => panic!("the metadata path filter must match whole paths only"),
        Err(e) => assert_eq!(e, QueryError::EmptyResult),
    }
}

#[test]
fn query_meta_empty_path_matches_all() {
    let bundle = action_bundle(vec![
        q_meta_chunk("/robot/notes", "text/plain", "hello"),
        q_meta_chunk("/robot/extra", "text/plain", "other"),
    ]);
    let records = query_meta_entities(&bundle, "").unwrap();
    assert_eq!(records.len(), 2);
    assert_eq!(records[0].entity_path(), "/robot/notes");
    assert_eq!(records[1].entity_path(), "/robot/extra");
}

#[test]
fn list_entity_paths_concatenates_databases() {
    let bundle = Bundle {
        entity_dbs: vec![
            EntityDatabase {
                entity_paths: vec!["/a".to_string(), "/b".to_string()],
                messages: Vec::new(),
            },
            EntityDatabase {
                entity_paths: vec!["/c".to_string()],
                messages: Vec::new(),
            },
        ],
    };
    assert_eq!(list_entity_paths(&bundle), vec!["/a", "/b", "/c"]);
}

#[test]
fn action_database_selection() {
    let plain = EntityDatabase {
        entity_paths: vec!["/viewport".to_string()],
        messages: Vec::new(),
    };
    let action = EntityDatabase {
        entity_paths: vec!["/robot/action".to_string()],
        messages: vec![None],
    };
    assert!(!is_action_entity_db(&plain));
    assert!(is_action_entity_db(&action));
    let bundle = Bundle { entity_dbs: vec![plain, action] };
    assert!(has_action_entity_db(&bundle));
    let db = get_action_entity_db(&bundle);
    assert_eq!(db.entity_paths, vec!["/robot/action".to_string()]);
    let no_action = Bundle {
        entity_dbs: vec![EntityDatabase {
            entity_paths: vec!["/viewport".to_string()],
            messages: Vec::new(),
        }],
    };
    assert!(!has_action_entity_db(&no_action));
}

#[test]
fn filter_predicates() {
    let s = q_scalar_chunk("/robot/reward", vec![0.5]);
    assert!(matches_data_type(&s, ""));
    assert!(matches_data_type(&s, "scalar"));
    assert!(!matches_data_type(&s, "tensor"));
    assert!(!matches_data_type(&s, "anything else"));
    assert!(matches_entity_path(&s, ""));
    assert!(matches_entity_path(&s, "reward"));
    assert!(!matches_entity_path(&s, "sensor"));
}

#[test]
fn string_helpers() {
    assert!(str_eq("abc", "abc"));
    assert!(!str_eq("abc", "abd"));
    assert!(!str_eq("abc", "ab"));
    assert!(str_contains("/robot/sensor_1", "sensor_1"));
    assert!(str_contains("abc", ""));
    assert!(!str_contains("ab", "abc"));
    assert!(!str_contains("/robot/sensor_2", "sensor_1"));
}

#[test]
fn default_data_chunk_is_empty_tensor() {
    let d = DataChunk::default();
    assert_eq!(d.entity_path(), "");
    assert!(d.timelines().is_empty());
    match d.data() {
        Data::Tensor { data } => assert_eq!(data.row_count(), 0),
        Data::Scalar { .. } => panic!("the default record must hold a tensor payload"),
    }
}

#[test]
fn matrix_rejects_ragged_rows() {
    assert!(Matrix::new(vec![vec![1, 2], vec![3]]).is_none());
    let m = Matrix::new(vec![vec![1, 2], vec![3, 4]]).unwrap();
    assert_eq!(m.row_count(), 2);
    assert_eq!(m.col_count(), 2);
}
