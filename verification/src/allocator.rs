//! Where a block with a large alignment lies inside the memory the kernel
//! hands out for it.
//!
//! The kernel aligns what it allocates to [`BYTE_ALIGNMENT`] and no further.
//! A block that needs more is cut out of a larger region, and the address of
//! that region is kept just in front of the block, to free the region by.
use vstd::arithmetic::div_mod::lemma_fundamental_div_mod;
use vstd::arithmetic::div_mod::lemma_mod_multiples_basic;
use vstd::prelude::*;

verus! {

/// The alignment of everything the kernel allocates, in bytes.
pub const BYTE_ALIGNMENT: usize = 8;

/// Bytes from `address` up to the next multiple of `align`.
pub open spec fn spec_align_offset(address: int, align: int) -> int {
    if address % align == 0 {
        0
    } else {
        align - address % align
    }
}

/// Bytes kept free in front of a block for the address of its region: the
/// size of an address, and room to align it.
pub open spec fn spec_alloc_information_size() -> int {
    (vstd::layout::size_of::<usize>() + vstd::layout::align_of::<usize>()) as int
}

/// Where the region's address is kept, for a block at `memory`.
pub open spec fn spec_original_pointer_location(memory: int) -> int {
    let start = memory - spec_alloc_information_size();
    start + spec_align_offset(start, vstd::layout::align_of::<usize>() as int)
}

/// Where the block lies in the region at `allocated`.
pub open spec fn spec_memory_region(allocated: int, align: int) -> int {
    let start = allocated + spec_alloc_information_size();
    start + spec_align_offset(start, align)
}

/// The next multiple of `align` at or after `address` is less than `align`
/// bytes away, and is a multiple of `align`.
pub proof fn lemma_align_offset(address: int, align: int)
    requires
        0 <= address,
        0 < align,
    ensures
        0 <= spec_align_offset(address, align) < align,
        (address + spec_align_offset(address, align)) % align == 0,
{
    let rest = address % align;
    lemma_fundamental_div_mod(address, align);
    if rest != 0 {
        let whole = address / align;
        assert(address + (align - rest) == align * (whole + 1)) by (nonlinear_arith)
            requires
                address == align * whole + rest,
        ;
        lemma_mod_multiples_basic(whole + 1, align);
        assert((whole + 1) * align == align * (whole + 1)) by (nonlinear_arith);
    }
}

/// An address has a size, is aligned to at least one byte and to no more
/// than its size.
pub proof fn lemma_address_layout()
    ensures
        0 < vstd::layout::align_of::<usize>() <= vstd::layout::size_of::<usize>() <= 8,
{
    broadcast use vstd::layout::layout_of_primitives;
    broadcast use vstd::layout::align_properties;
    broadcast use vstd::layout::align_nonzero;

    let size = vstd::layout::size_of::<usize>() as int;
    let align = vstd::layout::align_of::<usize>() as int;
    assert(size == 4 || size == 8);
    assert(size % align == 0);
    if align > size {
        vstd::arithmetic::div_mod::lemma_small_mod(size as nat, align as nat);
    }
}

/// Whether the kernel's own alignment is enough for a block.
pub fn fits_kernel_alignment(align: usize) -> (fits: bool)
    ensures
        fits == (align <= BYTE_ALIGNMENT),
{
    align <= BYTE_ALIGNMENT
}

/// Returns the bytes kept free in front of a block for the address of its
/// region.
pub fn alloc_information_size() -> (bytes: usize)
    ensures
        bytes == spec_alloc_information_size(),
        bytes >= vstd::layout::size_of::<usize>() + 1,
{
    proof {
        lemma_address_layout();
    }
    core::mem::size_of::<usize>() + core::mem::align_of::<usize>()
}

/// Returns the bytes to ask the kernel for, for a block of `size` bytes
/// aligned to `align`: room for the block wherever the alignment puts it, and
/// for the address in front of it. `None` where that is more than any
/// region can have.
pub fn required_size(size: usize, align: usize) -> (bytes: Option<usize>)
    ensures
        align + size + spec_alloc_information_size() <= usize::MAX ==> bytes == Some(
            (align + size + spec_alloc_information_size()) as usize,
        ),
        align + size + spec_alloc_information_size() > usize::MAX ==> bytes is None,
{
    let information: usize = alloc_information_size();
    match align.checked_add(size) {
        Some(block) => block.checked_add(information),
        None => None,
    }
}

/// Returns the bytes from `address` up to the next multiple of `align`.
pub fn align_offset(address: usize, align: usize) -> (offset: usize)
    requires
        0 < align,
    ensures
        offset == spec_align_offset(address as int, align as int),
        offset < align,
        (address + offset) % (align as int) == 0,
{
    proof {
        lemma_align_offset(address as int, align as int);
    }
    let rest: usize = address % align;
    if rest == 0 {
        0
    } else {
        align - rest
    }
}

/// Returns where the block lies in the region at `allocated`: at the first
/// multiple of `align` that leaves room in front for the region's address.
pub fn memory_region(allocated: usize, align: usize) -> (memory: usize)
    requires
        0 < align,
        allocated + spec_alloc_information_size() + align <= usize::MAX,
    ensures
        memory == spec_memory_region(allocated as int, align as int),
        memory % align == 0,
        allocated + spec_alloc_information_size() <= memory,
        memory < allocated + spec_alloc_information_size() + align,
{
    let start: usize = allocated + alloc_information_size();
    let offset: usize = align_offset(start, align);
    start + offset
}

/// Returns where the region's address is kept, for the block at `memory`:
/// at the first place in the room in front of the block that is aligned for
/// an address.
pub fn original_pointer_location(memory: usize) -> (location: usize)
    requires
        spec_alloc_information_size() <= memory,
    ensures
        location == spec_original_pointer_location(memory as int),
        location % core::mem::align_of::<usize>() == 0,
        memory - spec_alloc_information_size() <= location,
        location + vstd::layout::size_of::<usize>() <= memory,
{
    proof {
        lemma_address_layout();
    }
    let start: usize = memory - alloc_information_size();
    let offset: usize = align_offset(start, core::mem::align_of::<usize>());
    start + offset
}

/// The address of a region is kept inside the region, in front of the block
/// and clear of it, and the block with its `size` bytes ends inside the
/// region too.
pub proof fn lemma_block_lies_in_region(allocated: int, size: int, align: int)
    requires
        0 <= allocated,
        0 <= size,
        0 < align,
    ensures
        allocated <= spec_original_pointer_location(spec_memory_region(allocated, align)),
        spec_original_pointer_location(spec_memory_region(allocated, align))
            + vstd::layout::size_of::<usize>() <= spec_memory_region(allocated, align),
        spec_memory_region(allocated, align) % align == 0,
        spec_memory_region(allocated, align) + size <= allocated + align + size
            + spec_alloc_information_size(),
{
    lemma_address_layout();
    let information = spec_alloc_information_size();
    lemma_align_offset(allocated + information, align);
    let memory = spec_memory_region(allocated, align);
    lemma_align_offset(memory - information, vstd::layout::align_of::<usize>() as int);
}

} // verus!
