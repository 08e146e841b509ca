//! The chunk classifier: which semantic kind of payload a chunk carries,
//! read off the set of component names it declares.

use vstd::prelude::*;

use crate::model::Chunk;
use crate::text::str_eq;

verus! {

/// The component name that marks a tensor payload.
pub open spec fn tensor_component() -> Seq<char> {
    "rerun.components.TensorData"@
}

/// The component name that marks a scalar payload.
pub open spec fn scalar_component() -> Seq<char> {
    "rerun.components.Scalar"@
}

/// The component name that marks a text/metadata payload.
pub open spec fn text_component() -> Seq<char> {
    "rerun.components.Text"@
}

/// The component name under which a metadata chunk declares its media type.
pub open spec fn media_type_component() -> Seq<char> {
    "rerun.components.MediaType"@
}

/// The chunk declares a component column under the given name.
pub open spec fn spec_has_component(c: Chunk, name: Seq<char>) -> bool {
    exists|i: int| 0 <= i < c.components@.len() && (#[trigger] c.components@[i].name@) == name
}

pub open spec fn spec_is_tensor_chunk(c: Chunk) -> bool {
    spec_has_component(c, tensor_component())
}

pub open spec fn spec_is_scalar_chunk(c: Chunk) -> bool {
    spec_has_component(c, scalar_component())
}

pub open spec fn spec_is_meta_chunk(c: Chunk) -> bool {
    spec_has_component(c, text_component())
}

pub open spec fn spec_is_data_chunk(c: Chunk) -> bool {
    spec_is_scalar_chunk(c) || spec_is_tensor_chunk(c)
}

/// The semantic kind of payload a chunk carries. Presence checks can overlap
/// in principle; `classify` resolves them in a fixed priority order, tensor
/// before scalar before metadata.
#[derive(Clone, Copy, Debug, PartialEq, Eq, Structural)]
pub enum ChunkKind {
    Tensor,
    Scalar,
    Metadata,
    Unrecognized,
}

/// What `classify` reports for a chunk.
pub open spec fn spec_classify(c: Chunk) -> ChunkKind {
    if spec_is_tensor_chunk(c) {
        ChunkKind::Tensor
    } else if spec_is_scalar_chunk(c) {
        ChunkKind::Scalar
    } else if spec_is_meta_chunk(c) {
        ChunkKind::Metadata
    } else {
        ChunkKind::Unrecognized
    }
}

fn has_component(chunk: &Chunk, name: &str) -> (r: bool)
    ensures
        r == spec_has_component(*chunk, name@),
{
    let n = chunk.components.len();
    let mut i: usize = 0;
    while i < n
        invariant
            i <= n,
            n == chunk.components@.len(),
            forall|k: int| 0 <= k < i ==> (#[trigger] chunk.components@[k].name@) != name@,
        decreases n - i,
    {
        if str_eq(chunk.components[i].name.as_str(), name) {
            return true;
        }
        i = i + 1;
    }
    false
}

/// The chunk declares a tensor-payload component.
pub fn is_tensor_chunk(chunk: &Chunk) -> (r: bool)
    ensures
        r == spec_is_tensor_chunk(*chunk),
{
    has_component(chunk, "rerun.components.TensorData")
}

/// The chunk declares a scalar-payload component.
pub fn is_scalar_chunk(chunk: &Chunk) -> (r: bool)
    ensures
        r == spec_is_scalar_chunk(*chunk),
{
    has_component(chunk, "rerun.components.Scalar")
}

/// The chunk declares a text/metadata component.
pub fn is_meta_chunk(chunk: &Chunk) -> (r: bool)
    ensures
        r == spec_is_meta_chunk(*chunk),
{
    has_component(chunk, "rerun.components.Text")
}

/// The chunk carries numeric payload data, scalar or tensor.
pub fn is_data_chunk(chunk: &Chunk) -> (r: bool)
    ensures
        r == spec_is_data_chunk(*chunk),
{
    is_scalar_chunk(chunk) || is_tensor_chunk(chunk)
}

/// Report the semantic kind of a chunk, testing the presence predicates in
/// the fixed priority order: tensor before scalar before metadata.
pub fn classify(chunk: &Chunk) -> (k: ChunkKind)
    ensures
        k == spec_classify(*chunk),
{
    if is_tensor_chunk(chunk) {
        ChunkKind::Tensor
    } else if is_scalar_chunk(chunk) {
        ChunkKind::Scalar
    } else if is_meta_chunk(chunk) {
        ChunkKind::Metadata
    } else {
        ChunkKind::Unrecognized
    }
}

} // verus!
