//! Index buffer view descriptor.

use vstd::prelude::*;

verus! {

/// Width of the elements of an index buffer.
#[derive(Clone, Copy, Debug, PartialEq, Eq, Hash, Structural)]
pub enum IndexType {
    /// 16-bit indices.
    U16,
    /// 32-bit indices.
    U32,
}

/// Index buffer view for `bind_index_buffer`.
///
/// A plain descriptor binding a region of a borrowed buffer as an index
/// source; `B` is the backend's buffer type. No validation happens at
/// construction: that the buffer was created with the `INDEX` usage, and
/// that the offset is in bounds and aligned for the index type, is enforced
/// by the external binding operation when the view is submitted.
pub struct IndexBufferView<'a, B> {
    /// The buffer the indices are fetched from.
    pub buffer: &'a B,
    /// Byte offset of the first index inside the buffer.
    pub offset: u64,
    /// Width of each index element.
    pub index_type: IndexType,
}

} // verus!
