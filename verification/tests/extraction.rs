use requery::classify::{classify, is_data_chunk, is_meta_chunk, ChunkKind};
use requery::decode::{decode_union, DecodeError};
use requery::extract::{
    extract_metadata, extract_scalar, extract_tensor, extract_timelines, to_data_chunk,
    ExtractError,
};
use requery::model::{Chunk, ComponentColumn, FieldValue, RowValue, TimeColumn, UnionColumn};
use requery::records::Data;

fn union_of(tags: Vec<u8>, offsets: Option<Vec<usize>>, lists: Vec<Vec<f64>>) -> UnionColumn {
    UnionColumn {
        tags,
        offsets,
        float_lists: lists
            .into_iter()
            .map(|l| l.into_iter().map(f64::to_bits).collect())
            .collect(),
    }
}

fn tensor_row(values: Vec<f64>) -> RowValue {
    RowValue::Struct(vec![
        FieldValue::Other,
        FieldValue::Buffer(union_of(vec![11], None, vec![values])),
    ])
}

fn tensor_chunk(entity_path: &str, rows: Vec<RowValue>, timelines: Vec<TimeColumn>) -> Chunk {
    Chunk {
        entity_path: entity_path.to_string(),
        timelines,
        components: vec![ComponentColumn {
            name: "rerun.components.TensorData".to_string(),
            rows,
        }],
    }
}

fn scalar_chunk(entity_path: &str, values: Vec<f64>) -> Chunk {
    Chunk {
        entity_path: entity_path.to_string(),
        timelines: Vec::new(),
        components: vec![ComponentColumn {
            name: "rerun.components.Scalar".to_string(),
            rows: values
                .into_iter()
                .map(|v| RowValue::Floats(vec![v.to_bits()]))
                .collect(),
        }],
    }
}

fn text_column(name: &str, value: &str) -> ComponentColumn {
    ComponentColumn {
        name: name.to_string(),
        rows: vec![RowValue::Texts(vec![value.to_string()])],
    }
}

#[test]
fn decode_union_tag11_no_offsets() {
    let col = union_of(vec![11, 11], None, vec![vec![1.0, 2.0], vec![3.0, 4.0]]);
    let out = decode_union(&col).unwrap();
    assert_eq!(out.len(), 2);
    assert_eq!(out[0], vec![1.0f64.to_bits(), 2.0f64.to_bits()]);
    assert_eq!(out[1], vec![3.0f64.to_bits(), 4.0f64.to_bits()]);
}

#[test]
fn decode_union_with_offsets() {
    let col = union_of(
        vec![11, 11],
        Some(vec![1, 0]),
        vec![vec![1.0, 2.0], vec![3.0, 4.0]],
    );
    let out = decode_union(&col).unwrap();
    assert_eq!(out[0], vec![3.0f64.to_bits(), 4.0f64.to_bits()]);
    assert_eq!(out[1], vec![1.0f64.to_bits(), 2.0f64.to_bits()]);
}

#[test]
fn decode_union_unsupported_tag_aborts() {
    let col = union_of(vec![11, 7, 9], None, vec![vec![1.0], vec![2.0], vec![3.0]]);
    match decode_union(&col) {
        Ok(_) => panic!("a column with an unsupported tag must not decode"),
        Err(e) => assert_eq!(e, DecodeError::UnsupportedTag(7)),
    }
}

#[test]
fn decode_union_empty() {
    let col = union_of(Vec::new(), None, Vec::new());
    let out = decode_union(&col).unwrap();
    assert!(out.is_empty());
}

#[test]
fn extract_tensor_rows_and_width() {
    let chunk = tensor_chunk(
        "/robot/action",
        vec![tensor_row(vec![1.0, 2.0]), tensor_row(vec![3.0, 4.0])],
        Vec::new(),
    );
    let m = extract_tensor(&chunk).unwrap();
    assert_eq!(m.row_count(), 2);
    assert_eq!(m.col_count(), 2);
    assert_eq!(*m.row(0), vec![1.0f64.to_bits(), 2.0f64.to_bits()]);
    assert_eq!(*m.row(1), vec![3.0f64.to_bits(), 4.0f64.to_bits()]);
}

#[test]
fn extract_tensor_drops_undecodable_rows() {
    // The middle row is no structured record, so its downcast fails and the
    // row is dropped; the matrix keeps one row per row that decoded.
    let chunk = tensor_chunk(
        "/robot/action",
        vec![
            tensor_row(vec![1.0, 2.0]),
            RowValue::Floats(vec![9.0f64.to_bits()]),
            tensor_row(vec![3.0, 4.0]),
        ],
        Vec::new(),
    );
    let m = extract_tensor(&chunk).unwrap();
    assert_eq!(m.row_count(), 2);
    assert_eq!(m.col_count(), 2);
    assert_eq!(*m.row(1), vec![3.0f64.to_bits(), 4.0f64.to_bits()]);
}

#[test]
fn extract_tensor_non_rectangular() {
    let chunk = tensor_chunk(
        "/robot/action",
        vec![tensor_row(vec![1.0, 2.0]), tensor_row(vec![3.0])],
        Vec::new(),
    );
    match extract_tensor(&chunk) {
        Ok(_) => panic!("ragged rows must not assemble into a matrix"),
        Err(e) => assert_eq!(e, ExtractError::NonRectangular),
    }
}

#[test]
fn extract_tensor_unsupported_tag_is_fatal() {
    let bad = RowValue::Struct(vec![
        FieldValue::Other,
        FieldValue::Buffer(union_of(vec![9], None, vec![vec![5.0]])),
    ]);
    let chunk = tensor_chunk("/robot/action", vec![tensor_row(vec![1.0]), bad], Vec::new());
    match extract_tensor(&chunk) {
        Ok(_) => panic!("an unsupported tag must abort the extraction"),
        Err(e) => assert_eq!(e, ExtractError::UnsupportedTag(9)),
    }
}

#[test]
fn extract_tensor_no_components() {
    let chunk = Chunk {
        entity_path: "/robot/action".to_string(),
        timelines: Vec::new(),
        components: Vec::new(),
    };
    match extract_tensor(&chunk) {
        Ok(_) => panic!("a chunk without components must not extract"),
        Err(e) => assert_eq!(e, ExtractError::NoComponents),
    }
}

#[test]
fn extract_scalar_one_value_per_row() {
    let chunk = scalar_chunk("/robot/reward", vec![0.5, -1.0, 2.25]);
    let v = extract_scalar(&chunk).unwrap();
    assert_eq!(
        v,
        vec![0.5f64.to_bits(), (-1.0f64).to_bits(), 2.25f64.to_bits()]
    );
}

#[test]
fn extract_scalar_type_mismatch() {
    let mut chunk = scalar_chunk("/robot/reward", vec![0.5]);
    chunk.components[0]
        .rows
        .push(RowValue::Texts(vec!["oops".to_string()]));
    assert_eq!(extract_scalar(&chunk), Err(ExtractError::TypeMismatch));
}

#[test]
fn extract_metadata_missing_media_type() {
    let chunk = Chunk {
        entity_path: "/robot/notes".to_string(),
        timelines: Vec::new(),
        components: vec![text_column("rerun.components.Text", "hello")],
    };
    let m = extract_metadata(&chunk);
    assert_eq!(m.media_type(), "unknown");
    assert_eq!(m.text(), "hello");
    assert_eq!(m.entity_path(), "/robot/notes");
}

#[test]
fn extract_metadata_missing_text() {
    let chunk = Chunk {
        entity_path: "/robot/notes".to_string(),
        timelines: Vec::new(),
        components: vec![text_column("rerun.components.MediaType", "text/plain")],
    };
    let m = extract_metadata(&chunk);
    assert_eq!(m.media_type(), "text/plain");
    assert_eq!(m.text(), "no text");
}

#[test]
fn extract_metadata_both_present() {
    let chunk = Chunk {
        entity_path: "/robot/notes".to_string(),
        timelines: Vec::new(),
        components: vec![
            text_column("rerun.components.MediaType", "text/markdown"),
            text_column("rerun.components.Text", "# title"),
        ],
    };
    let m = extract_metadata(&chunk);
    assert_eq!(m.media_type(), "text/markdown");
    assert_eq!(m.text(), "# title");
}

#[test]
fn extract_timelines_copies_all() {
    let chunk = tensor_chunk(
        "/robot/action",
        vec![tensor_row(vec![1.0])],
        vec![
            TimeColumn {
                name: "tick".to_string(),
                times: vec![0],
            },
            TimeColumn {
                name: "log_time".to_string(),
                times: vec![17],
            },
        ],
    );
    let ts = extract_timelines(&chunk);
    assert_eq!(ts.len(), 2);
    assert_eq!(ts[0].name, "tick");
    assert_eq!(ts[0].times, vec![0]);
    assert_eq!(ts[1].name, "log_time");
    assert_eq!(ts[1].times, vec![17]);
}

#[test]
fn classify_priority_tensor_before_scalar() {
    let mut chunk = tensor_chunk("/robot/action", vec![tensor_row(vec![1.0])], Vec::new());
    chunk.components.push(ComponentColumn {
        name: "rerun.components.Scalar".to_string(),
        rows: vec![RowValue::Floats(vec![1.0f64.to_bits()])],
    });
    assert_eq!(classify(&chunk), ChunkKind::Tensor);
    assert!(is_data_chunk(&chunk));
}

#[test]
fn classify_kinds() {
    let t = tensor_chunk("/a", vec![tensor_row(vec![1.0])], Vec::new());
    assert_eq!(classify(&t), ChunkKind::Tensor);
    let s = scalar_chunk("/a", vec![1.0]);
    assert_eq!(classify(&s), ChunkKind::Scalar);
    let m = Chunk {
        entity_path: "/a".to_string(),
        timelines: Vec::new(),
        components: vec![text_column("rerun.components.Text", "x")],
    };
    assert_eq!(classify(&m), ChunkKind::Metadata);
    assert!(is_meta_chunk(&m));
    let u = Chunk {
        entity_path: "/a".to_string(),
        timelines: Vec::new(),
        components: vec![ComponentColumn {
            name: "rerun.components.Position3D".to_string(),
            rows: vec![RowValue::Other],
        }],
    };
    assert_eq!(classify(&u), ChunkKind::Unrecognized);
    assert!(!is_data_chunk(&u));
}

#[test]
fn to_data_chunk_unsupported_kind() {
    let u = Chunk {
        entity_path: "/a".to_string(),
        timelines: Vec::new(),
        components: vec![ComponentColumn {
            name: "rerun.components.Position3D".to_string(),
            rows: vec![RowValue::Other],
        }],
    };
    match to_data_chunk(&u) {
        Ok(_) => panic!("a chunk of unrecognized kind must not extract"),
        Err(e) => assert_eq!(e, ExtractError::UnsupportedChunkType),
    }
}

#[test]
fn to_data_chunk_carries_path_and_timelines() {
    let chunk = tensor_chunk(
        "/robot/action",
        vec![tensor_row(vec![1.0, 2.0])],
        vec![TimeColumn {
            name: "tick".to_string(),
            times: vec![0],
        }],
    );
    let dc = to_data_chunk(&chunk).unwrap();
    assert_eq!(dc.entity_path(), "/robot/action");
    assert_eq!(dc.timelines().len(), 1);
    assert_eq!(dc.timelines()[0].name, "tick");
    match dc.data() {
        Data::Tensor { data } => {
            assert_eq!(data.row_count(), 1);
            assert_eq!(*data.row(0), vec![1.0f64.to_bits(), 2.0f64.to_bits()]);
        }
        Data::Scalar { .. } => panic!("a tensor chunk must yield a tensor record"),
    }
}
