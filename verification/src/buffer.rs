use vstd::prelude::*;
use crate::batch::cast_to_bytes;

verus! {

/// Buffer copies must cover a multiple of this many bytes.
pub const COPY_BUFFER_ALIGNMENT: u64 = 4;

/// Bytes taken by `count` 16-bit indices.
pub open spec fn index_bytes_len(count: int) -> int {
    count * 2
}

/// The size allotted to a buffer of `count` 16-bit indices: their bytes and
/// as many again as those bytes exceed a multiple of the copy alignment.
pub open spec fn index_alloc_len(count: int) -> int {
    index_bytes_len(count) + index_bytes_len(count) % (COPY_BUFFER_ALIGNMENT as int)
}

/// The byte size of `count` 16-bit indices and the size of the buffer that
/// holds them.
pub fn index_buffer_size(count: usize) -> (r: (u64, u64))
    requires
        count <= (u64::MAX - 2) / 2,
    ensures
        r.0 == index_bytes_len(count as int),
        r.1 == index_alloc_len(count as int),
{
    let size: u64 = count as u64 * 2;
    let padding: u64 = size % COPY_BUFFER_ALIGNMENT;
    assert(padding <= 2) by (nonlinear_arith)
        requires
            size == count * 2,
            padding == size % 4,
    ;
    (size, size + padding)
}

/// The indices as the bytes copied into the buffer, two per index.
pub fn index_bytes(indices: &[u16]) -> (r: &[u8])
    ensures
        r@.len() == index_bytes_len(indices@.len() as int),
{
    broadcast use vstd::layout::layout_of_primitives;
    cast_to_bytes(indices)
}

/// The allotted size is the byte size rounded up to the copy alignment: two
/// bytes per index leave a remainder of zero or two, and adding it again
/// reaches the next multiple.
pub proof fn law_index_buffer_is_aligned(count: nat)
    ensures
        index_alloc_len(count as int) % (COPY_BUFFER_ALIGNMENT as int) == 0,
        index_bytes_len(count as int) <= index_alloc_len(count as int) < index_bytes_len(count as int)
            + COPY_BUFFER_ALIGNMENT,
{
    assert((count * 2) % 4 == 0 || (count * 2) % 4 == 2) by (nonlinear_arith);
    assert((count * 2 + (count * 2) % 4) % 4 == 0) by (nonlinear_arith)
        requires
            (count * 2) % 4 == 0 || (count * 2) % 4 == 2,
    ;
}

} // verus!
