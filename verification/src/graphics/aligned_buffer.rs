//! Sizing of zero-filled buffers whose first element sits at an address aligned to a power of
//! two: how many elements the aligned part holds, and how many must be allocated so that an
//! aligned start can always be found within the allocation.
use vstd::prelude::*;

verus! {

/// Why an aligned buffer cannot be made.
#[derive(Debug, Clone, Copy, PartialEq, Eq, Structural)]
pub enum AlignedBufferError {
    SizeOverflow,
    InvalidAlignment,
    AllocationFailed,
}

/// `n` is a power of two.
pub open spec fn is_pow2(n: nat) -> bool
    decreases n,
{
    if n <= 1 {
        n == 1
    } else {
        n % 2 == 0 && is_pow2(n / 2)
    }
}

/// `a / b`, rounded up.
pub open spec fn ceil_div(a: nat, b: nat) -> nat {
    if a % b == 0 { a / b } else { a / b + 1 }
}

/// The sizes of an aligned buffer, in elements.
#[derive(Debug, Clone, Copy, PartialEq, Eq, Structural)]
pub struct AlignedLayout {
    /// Elements in the aligned part: the requested size rounded up to whole alignment units.
    pub capacity: usize,
    /// Elements to allocate: the capacity and room to shift the start to an aligned address.
    pub total: usize,
}

/// The layout of a buffer of `size` elements of `element_bytes` bytes aligned to `alignment`
/// bytes, or why there is none: a byte length beyond the address space, an alignment that is
/// not a power of two of at least 2, or a total beyond the address space.
pub open spec fn spec_aligned_layout(size: nat, element_bytes: nat, alignment: nat)
    -> Result<(nat, nat), AlignedBufferError> {
    let length_bytes = size * element_bytes;
    if length_bytes > usize::MAX {
        Err(AlignedBufferError::SizeOverflow)
    } else if alignment < 2 || !is_pow2(alignment) {
        Err(AlignedBufferError::InvalidAlignment)
    } else {
        let capacity = ceil_div(length_bytes, alignment) * alignment / element_bytes;
        let total = capacity + ceil_div(alignment, element_bytes);
        if capacity < size || total > usize::MAX {
            Err(AlignedBufferError::SizeOverflow)
        } else {
            Ok((capacity, total))
        }
    }
}

/// Whether `n` is a power of two, halving it while it is even.
fn is_power_of_two(n: usize) -> (r: bool)
    ensures
        r == is_pow2(n as nat),
{
    let mut m = n;
    while m > 1 && m % 2 == 0
        invariant
            is_pow2(m as nat) == is_pow2(n as nat),
        decreases m,
    {
        m = m / 2;
    }
    m == 1
}

/// `a / b` rounded up.
fn div_ceil(a: usize, b: usize) -> (r: usize)
    requires
        b >= 1,
    ensures
        r == ceil_div(a as nat, b as nat),
{
    if a % b == 0 {
        a / b
    } else {
        assert(a / b < usize::MAX) by (nonlinear_arith)
            requires b >= 2, a <= usize::MAX;
        a / b + 1
    }
}

/// The layout of an aligned buffer, as `spec_aligned_layout` describes it. The byte length
/// rounded up to whole alignment units must fit in the address space, as the arithmetic that
/// finds it does not check.
pub fn aligned_layout(size: usize, element_bytes: usize, alignment: usize) -> (r: Result<AlignedLayout, AlignedBufferError>)
    requires
        element_bytes >= 1,
        size * element_bytes <= usize::MAX && alignment >= 2 ==>
            ceil_div((size * element_bytes) as nat, alignment as nat) * alignment <= usize::MAX,
    ensures
        r matches Ok(l) ==> spec_aligned_layout(size as nat, element_bytes as nat, alignment as nat)
            == Ok::<(nat, nat), AlignedBufferError>((l.capacity as nat, l.total as nat)),
        r matches Err(e) ==> spec_aligned_layout(size as nat, element_bytes as nat, alignment as nat)
            == Err::<(nat, nat), AlignedBufferError>(e),
{
    let length_bytes = match size.checked_mul(element_bytes) {
        Some(v) => v,
        None => return Err(AlignedBufferError::SizeOverflow),
    };
    if alignment < 2 || !is_power_of_two(alignment) {
        return Err(AlignedBufferError::InvalidAlignment);
    }
    let units = div_ceil(length_bytes, alignment);
    let capacity_bytes = units * alignment;
    let capacity = capacity_bytes / element_bytes;
    if capacity < size {
        return Err(AlignedBufferError::SizeOverflow);
    }
    let padding_elements = div_ceil(alignment, element_bytes);
    match capacity.checked_add(padding_elements) {
        Some(total) => Ok(AlignedLayout { capacity, total }),
        None => Err(AlignedBufferError::SizeOverflow),
    }
}

/// The aligned part holds at least the requested elements.
pub proof fn lemma_capacity_covers_size(size: nat, element_bytes: nat, alignment: nat)
    requires
        element_bytes >= 1,
        alignment >= 1,
    ensures
        ceil_div(size * element_bytes, alignment) * alignment / element_bytes >= size,
{
    let lb = size * element_bytes;
    let units = ceil_div(lb, alignment);
    assert(units * alignment >= lb) by (nonlinear_arith)
        requires
            alignment >= 1,
            units == (if lb % alignment == 0 { lb / alignment } else { lb / alignment + 1 }),
    {
        assert(lb == alignment * (lb / alignment) + lb % alignment);
    }
    vstd::arithmetic::div_mod::lemma_div_is_ordered((size * element_bytes) as int, (units * alignment) as int,
        element_bytes as int);
    assert((size * element_bytes) / element_bytes == size) by (nonlinear_arith)
        requires element_bytes >= 1;
}

} // verus!
