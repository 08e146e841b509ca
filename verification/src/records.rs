//! The output records: rectangular float64 matrices, data chunks (tensor or
//! scalar payload with timelines) and metadata chunks.

use vstd::prelude::*;

use crate::model::TimeColumn;

verus! {

/// Every row of the matrix has the width of the first row.
pub open spec fn rectangular(rows: Seq<Seq<u64>>) -> bool {
    forall|i: int| 0 <= i < rows.len() ==> (#[trigger] rows[i]).len() == rows[0].len()
}

/// A rectangular 2-D container of float64 values (bit patterns): one inner
/// vector per row, all of equal width.
pub struct Matrix {
    pub rows: Vec<Vec<u64>>,
}

impl View for Matrix {
    type V = Seq<Seq<u64>>;

    open spec fn view(&self) -> Seq<Seq<u64>> {
        self.rows@.map_values(|v: Vec<u64>| v@)
    }
}

impl Matrix {
    /// The invariant every constructed matrix carries: it is rectangular.
    pub open spec fn wf(self) -> bool {
        rectangular(self@)
    }

    /// Assemble a matrix from its rows; fails when the rows are not all of
    /// equal length.
    pub fn new(rows: Vec<Vec<u64>>) -> (r: Option<Matrix>)
        ensures
            match r {
                Some(m) => m@ == rows@.map_values(|v: Vec<u64>| v@) && m.wf(),
                None => !rectangular(rows@.map_values(|v: Vec<u64>| v@)),
            },
    {
        let n = rows.len();
        if n == 0 {
            let m = Matrix { rows };
            return Some(m);
        }
        let width = rows[0].len();
        let mut i: usize = 0;
        while i < n
            invariant
                i <= n,
                n == rows@.len(),
                n > 0,
                width == rows@[0]@.len(),
                forall|k: int| 0 <= k < i ==> (#[trigger] rows@[k])@.len() == width,
            decreases n - i,
        {
            if rows[i].len() != width {
                proof {
                    let m = rows@.map_values(|v: Vec<u64>| v@);
                    assert(m[i as int] == rows@[i as int]@);
                    assert(m[0] == rows@[0]@);
                }
                return None;
            }
            i = i + 1;
        }
        Some(Matrix { rows })
    }

    /// The number of rows.
    pub fn row_count(&self) -> (n: usize)
        ensures
            n == self@.len(),
    {
        self.rows.len()
    }

    /// The common width of the rows; zero for a matrix with no rows.
    pub fn col_count(&self) -> (n: usize)
        ensures
            n == if self@.len() == 0 {
                0int
            } else {
                self@[0].len() as int
            },
    {
        if self.rows.len() == 0 {
            0
        } else {
            self.rows[0].len()
        }
    }

    /// Read row `i`.
    pub fn row(&self, i: usize) -> (r: &Vec<u64>)
        requires
            i < self@.len(),
        ensures
            r@ == self@[i as int],
    {
        &self.rows[i]
    }
}

/// The numeric payload of a data chunk: a 2-D matrix for a tensor, a 1-D
/// vector (one value per chunk row) for a scalar time-series.
#[allow(inconsistent_fields)]
pub enum Data {
    Tensor { data: Matrix },
    Scalar { data: Vec<u64> },
}

/// The spec-level value of a numeric payload.
pub ghost enum DataView {
    Tensor(Seq<Seq<u64>>),
    Scalar(Seq<u64>),
}

impl View for Data {
    type V = DataView;

    open spec fn view(&self) -> DataView {
        match self {
            Data::Tensor { data } => DataView::Tensor(data@),
            Data::Scalar { data } => DataView::Scalar(data@),
        }
    }
}

/// The spec-level value of a timeline set: (name, times) pairs in the
/// chunk's native order.
pub open spec fn timelines_view(ts: Seq<TimeColumn>) -> Seq<(Seq<char>, Seq<i64>)> {
    ts.map_values(|t: TimeColumn| (t.name@, t.times@))
}

/// One extracted numeric record: the source chunk's entity path, its
/// timelines, and its decoded payload.
pub struct DataChunk {
    pub entity_path: String,
    pub timelines: Vec<TimeColumn>,
    pub data: Data,
}

/// The spec-level value of a data record.
pub ghost struct DataRecordView {
    pub entity_path: Seq<char>,
    pub timelines: Seq<(Seq<char>, Seq<i64>)>,
    pub data: DataView,
}

impl View for DataChunk {
    type V = DataRecordView;

    open spec fn view(&self) -> DataRecordView {
        DataRecordView {
            entity_path: self.entity_path@,
            timelines: timelines_view(self.timelines@),
            data: self.data@,
        }
    }
}

impl DataChunk {
    pub fn new(entity_path: String, timelines: Vec<TimeColumn>, data: Data) -> (r: DataChunk)
        ensures
            r@.entity_path == entity_path@,
            r@.timelines == timelines_view(timelines@),
            r@.data == data@,
    {
        DataChunk { entity_path, timelines, data }
    }

    pub fn entity_path(&self) -> (r: &str)
        ensures
            r@ == self@.entity_path,
    {
        self.entity_path.as_str()
    }

    pub fn timelines(&self) -> (r: &Vec<TimeColumn>)
        ensures
            timelines_view(r@) == self@.timelines,
    {
        &self.timelines
    }

    pub fn data(&self) -> (r: &Data)
        ensures
            r@ == self@.data,
    {
        &self.data
    }
}

impl Default for DataChunk {
    /// The empty record: no entity path, no timelines, a tensor payload
    /// with no rows.
    fn default() -> (d: DataChunk)
        ensures
            d@.entity_path == Seq::<char>::empty(),
            d@.timelines == Seq::<(Seq<char>, Seq<i64>)>::empty(),
            d@.data == DataView::Tensor(Seq::<Seq<u64>>::empty()),
    {
        let m = Matrix { rows: Vec::new() };
        let d = DataChunk {
            entity_path: String::new(),
            timelines: Vec::new(),
            data: Data::Tensor { data: m },
        };
        proof {
            assert(m@ =~= Seq::<Seq<u64>>::empty());
            assert(d@.timelines =~= Seq::<(Seq<char>, Seq<i64>)>::empty());
        }
        d
    }
}

/// One extracted metadata record: the source chunk's entity path, its media
/// type and its text, with sentinel values where a column was absent.
pub enum MetaChunk {
    Text { entity_path: String, media_type: String, text: String },
}

/// The spec-level value of a metadata record.
pub ghost struct MetaRecordView {
    pub entity_path: Seq<char>,
    pub media_type: Seq<char>,
    pub text: Seq<char>,
}

impl View for MetaChunk {
    type V = MetaRecordView;

    open spec fn view(&self) -> MetaRecordView {
        match self {
            MetaChunk::Text { entity_path, media_type, text } => MetaRecordView {
                entity_path: entity_path@,
                media_type: media_type@,
                text: text@,
            },
        }
    }
}

impl MetaChunk {
    pub fn new(entity_path: String, media_type: String, text: String) -> (r: MetaChunk)
        ensures
            r@.entity_path == entity_path@,
            r@.media_type == media_type@,
            r@.text == text@,
    {
        MetaChunk::Text { entity_path, media_type, text }
    }

    pub fn entity_path(&self) -> (r: &str)
        ensures
            r@ == self@.entity_path,
    {
        match self {
            MetaChunk::Text { entity_path, .. } => entity_path.as_str(),
        }
    }

    pub fn media_type(&self) -> (r: &str)
        ensures
            r@ == self@.media_type,
    {
        match self {
            MetaChunk::Text { media_type, .. } => media_type.as_str(),
        }
    }

    pub fn text(&self) -> (r: &str)
        ensures
            r@ == self@.text,
    {
        match self {
            MetaChunk::Text { text, .. } => text.as_str(),
        }
    }
}

} // verus!
