//! Address arithmetic for a downward-growing stack.
use vstd::prelude::*;

verus! {

/// The alignment that the calling convention asks of the stack pointer.
pub const STACK_ALIGN: u64 = 16;

/// How far below the aligned top the resume slot is placed: one machine
/// word would break the alignment, so a full alignment unit is used.
pub const SLOT_OFFSET: u64 = 16;

/// `addr` rounded down to a multiple of the stack alignment.
pub open spec fn align_down_spec(addr: int) -> int {
    addr - addr % 16
}

/// Rounds `addr` down to the nearest 16-byte boundary by clearing its low
/// four bits.
pub fn align_down(addr: u64) -> (r: u64)
    ensures
        r == align_down_spec(addr as int),
        r % 16 == 0,
        r <= addr,
        addr < r + 16,
{
    let r = addr & !15u64;
    assert(addr & !15u64 == addr - addr % 16) by (bit_vector);
    r
}

/// Where the resume slot of a buffer of `size` bytes starting at `start`
/// lies: the aligned top of the buffer less one alignment unit.
pub open spec fn prepared_stack_pointer(start: int, size: int) -> int {
    align_down_spec(start + size) - 16
}

/// The buffer's end address is a machine address and the machine word at
/// its prepared stack pointer lies wholly inside the buffer.
pub open spec fn slot_within(start: int, size: int) -> bool {
    &&& start + size <= u64::MAX
    &&& start <= prepared_stack_pointer(start, size)
}

/// Computes the stack pointer to store in a fresh context for a buffer of
/// `size` bytes starting at address `buffer_start`. No bounds are checked:
/// for a small buffer the slot may lie below `buffer_start`.
pub fn stack_pointer_for(buffer_start: u64, size: u64) -> (r: u64)
    requires
        size >= 16,
        buffer_start + size <= u64::MAX,
    ensures
        r == prepared_stack_pointer(buffer_start as int, size as int),
        r % 16 == 0,
        r + 16 <= buffer_start + size,
{
    let top = align_down(buffer_start + size);
    top - SLOT_OFFSET
}

/// Tells whether the resume slot of the buffer lies inside it, so that
/// preparing the buffer writes nothing outside it.
pub fn slot_fits(buffer_start: u64, size: u64) -> (r: bool)
    ensures
        r == slot_within(buffer_start as int, size as int),
{
    match buffer_start.checked_add(size) {
        None => false,
        Some(end) => {
            let top = align_down(end);
            top >= STACK_ALIGN && top - SLOT_OFFSET >= buffer_start
        },
    }
}

/// A buffer of fewer than sixteen bytes never holds its resume slot: the
/// prepared stack pointer falls below the buffer's start.
pub proof fn lemma_small_buffer_misses_slot(start: int, size: int)
    requires
        0 <= start,
        0 <= size < 16,
    ensures
        prepared_stack_pointer(start, size) < start,
        !slot_within(start, size),
{
}

} // verus!
