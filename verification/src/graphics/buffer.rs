use vstd::prelude::*;

verus! {

/// The alignment, in bytes, that the GPU asks of buffer sizes and copy
/// offsets.
pub const COPY_BUFFER_ALIGNMENT: u64 = 4;

/// `size` rounded up to the copy alignment, and never below it.
pub open spec fn padded_size(size: int) -> int {
    let rounded = (size + 3) / 4 * 4;
    if rounded < 4 {
        4
    } else {
        rounded
    }
}

/// Pads a byte size to the copy alignment: the least multiple of
/// `COPY_BUFFER_ALIGNMENT` that holds `unpadded_size`, and at least one
/// alignment unit, since the GPU refuses empty buffers.
pub fn padded_buffer_size(unpadded_size: u64) -> (padded: u64)
    requires
        unpadded_size + 3 <= u64::MAX,
    ensures
        padded == padded_size(unpadded_size as int),
        padded % 4 == 0,
        padded >= unpadded_size,
        padded < unpadded_size + 4 || unpadded_size == 0,
{
    let align_mask = COPY_BUFFER_ALIGNMENT - 1;
    let sum = unpadded_size + align_mask;
    let rounded = sum & !align_mask;
    assert(rounded == sum / 4 * 4) by (bit_vector)
        requires
            align_mask == 3u64,
            rounded == sum & !align_mask;
    if rounded < COPY_BUFFER_ALIGNMENT {
        COPY_BUFFER_ALIGNMENT
    } else {
        rounded
    }
}

/// The size of a buffer that holds one `T`: its size in bytes, padded as
/// `padded_buffer_size` does.
pub fn wgpu_buffer_size<T>() -> (size: u64)
    ensures
        size == padded_size(vstd::layout::size_of::<T>() as int),
{
    vstd::layout::layout_for_type_is_valid::<T>();
    let unpadded_size = core::mem::size_of::<T>();
    padded_buffer_size(unpadded_size as u64)
}

/// The capacity a growable buffer moves to when asked to hold `requested`
/// elements: `None` if it already holds that many, else the larger of the
/// request and twice the present capacity.
pub open spec fn spec_grow_capacity(capacity: int, requested: int) -> Option<int> {
    if requested > capacity {
        Some(if requested > 2 * capacity { requested } else { 2 * capacity })
    } else {
        None
    }
}

/// Decides how a growable vertex buffer of `capacity` elements grows to
/// hold `requested` elements: the new capacity, when a new buffer must be
/// allocated, or `None`, when the present one is large enough. Contents are
/// not carried over by the caller's reallocation.
pub fn grow_capacity(capacity: usize, requested: usize) -> (grown: Option<usize>)
    requires
        requested > capacity ==> capacity * 2 <= usize::MAX,
    ensures
        grown matches Some(c) ==> spec_grow_capacity(capacity as int, requested as int) == Some(c as int),
        grown is None <==> spec_grow_capacity(capacity as int, requested as int) is None,
{
    if requested > capacity {
        let doubled = capacity * 2;
        if requested > doubled {
            Some(requested)
        } else {
            Some(doubled)
        }
    } else {
        None
    }
}

/// A buffer grown to a request holds it, never shrinks, and at least
/// doubles; a request it already holds leaves it as it is.
pub proof fn law_grow_capacity_holds_the_request(capacity: int, requested: int)
    requires
        capacity >= 0,
        requested >= 0,
    ensures
        spec_grow_capacity(capacity, requested) matches Some(c) ==> c >= requested && c >= 2 * capacity && c > capacity,
        spec_grow_capacity(capacity, requested) is None ==> requested <= capacity,
{
}

} // verus!
