use stack_swap::context::ExecutionContext;
use stack_swap::layout::{align_down, slot_fits, stack_pointer_for, SLOT_OFFSET, STACK_ALIGN};
use stack_swap::word::{read_word, write_word, WORD_BYTES};

#[test]
fn align_down_clears_low_bits() {
    assert_eq!(align_down(0), 0);
    assert_eq!(align_down(15), 0);
    assert_eq!(align_down(16), 16);
    assert_eq!(align_down(0x1033), 0x1030);
    assert_eq!(align_down(u64::MAX), u64::MAX - 15);
}

#[test]
fn stack_pointer_is_aligned_top_less_one_unit() {
    assert_eq!(stack_pointer_for(0x1000, 48), 0x1020);
    assert_eq!(stack_pointer_for(0x1003, 48), 0x1020);
    assert_eq!(stack_pointer_for(0x100f, 48), 0x1020);
    assert_eq!(stack_pointer_for(0x1010, 48), 0x1030);
    assert_eq!(stack_pointer_for(0, 16), 0);
}

#[test]
fn stack_pointer_is_deterministic() {
    for start in 0x2000u64..0x2040 {
        let a = stack_pointer_for(start, 48);
        let b = stack_pointer_for(start, 48);
        assert_eq!(a, b);
        assert_eq!(a, ((start + 48) & !15) - 16);
    }
}

#[test]
fn stack_pointer_is_sixteen_byte_aligned() {
    for start in 0x3000u64..0x3040 {
        for size in 16u64..80 {
            assert_eq!(stack_pointer_for(start, size) % STACK_ALIGN, 0);
        }
    }
}

#[test]
fn small_buffers_never_hold_the_slot() {
    for start in 0x4000u64..0x4040 {
        for size in 0u64..16 {
            assert!(!slot_fits(start, size));
        }
    }
}

#[test]
fn slot_fits_edge_cases() {
    assert!(slot_fits(0x1000, 16));
    assert!(!slot_fits(0x1001, 16));
    assert!(slot_fits(0x1001, 31));
    assert!(slot_fits(0x1003, 48));
    assert!(!slot_fits(u64::MAX - 8, 48));
    assert!(!slot_fits(u64::MAX, 1));
}

#[test]
fn word_bytes_are_least_significant_first() {
    let mut buf = vec![0xaau8; 12];
    write_word(&mut buf, 2, 0x0102_0304_0506_0708);
    assert_eq!(buf, vec![0xaa, 0xaa, 8, 7, 6, 5, 4, 3, 2, 1, 0xaa, 0xaa]);
    assert_eq!(read_word(&buf, 2), 0x0102_0304_0506_0708);
    assert_eq!(read_word(&buf, 0), 0x0304_0506_0708_aaaa);
}

#[test]
fn default_context_is_zero() {
    let ctx = ExecutionContext::default();
    assert_eq!(ctx.stack_pointer, 0);
    let copy = ctx;
    assert_eq!(copy, ctx);
}

#[test]
fn prepare_places_entry_in_resume_slot() {
    let mut stack = vec![0u8; 48];
    let start = stack.as_ptr() as u64;
    let entry: u64 = 0x0000_5555_dead_beef;
    let mut ctx = ExecutionContext::default();
    assert!(slot_fits(start, 48));
    ctx.prepare(&mut stack, start, entry);
    assert_eq!(ctx.stack_pointer, ((start + 48) & !15) - SLOT_OFFSET);
    assert_eq!(ctx.stack_pointer % 16, 0);
    let offset = (ctx.stack_pointer - start) as usize;
    assert!(offset + WORD_BYTES <= 48);
    assert_eq!(read_word(&stack, offset), entry);
    for (i, b) in stack.iter().enumerate() {
        if i < offset || i >= offset + WORD_BYTES {
            assert_eq!(*b, 0);
        }
    }
}

#[test]
fn prepare_at_fixed_address() {
    let mut stack = vec![0u8; 48];
    let mut ctx = ExecutionContext::default();
    ctx.prepare(&mut stack, 0x7003, 0x1122_3344_5566_7788);
    assert_eq!(ctx.stack_pointer, 0x7020);
    assert_eq!(&stack[29..37], &[0x88, 0x77, 0x66, 0x55, 0x44, 0x33, 0x22, 0x11]);
    assert_eq!(read_word(&stack, 29), 0x1122_3344_5566_7788);
}
