//! The context record and the preparation of a fresh stack for it.
use vstd::prelude::*;

use crate::layout::{
    lemma_small_buffer_misses_slot, prepared_stack_pointer, slot_within, stack_pointer_for,
};
use crate::word::{lemma_read_after_write, with_word, word_at, write_word};

verus! {

/// Where execution resumes on a logical thread: the value to load into the
/// stack-pointer register. The record checks nothing; whoever switches to it
/// answers for the address.
#[derive(Clone, Copy, Debug, PartialEq, Eq, Structural)]
pub struct ExecutionContext {
    pub stack_pointer: u64,
}

impl Default for ExecutionContext {
    /// A record whose stack pointer is zero.
    fn default() -> (r: Self)
        ensures
            r.stack_pointer == 0,
    {
        ExecutionContext { stack_pointer: 0 }
    }
}

/// `ctx` may be switched to on the buffer `stack`, which starts at address
/// `start`: the word at its stack pointer lies inside the buffer and holds
/// the address `entry`, where the switch lands.
pub open spec fn ready_to_switch(ctx: ExecutionContext, stack: Seq<u8>, start: int, entry: u64) -> bool {
    &&& start <= ctx.stack_pointer
    &&& ctx.stack_pointer + 8 <= start + stack.len()
    &&& word_at(stack, ctx.stack_pointer - start) == entry
}

impl ExecutionContext {
    /// Lays out `stack`, a buffer whose first byte sits at address
    /// `stack_start`, so that switching to this context lands at `entry`:
    /// `entry` is written into the resume slot below the buffer's aligned
    /// top, and the slot's address becomes the stack pointer.
    pub fn prepare(&mut self, stack: &mut Vec<u8>, stack_start: u64, entry: u64)
        requires
            slot_within(stack_start as int, old(stack).len() as int),
        ensures
            final(self).stack_pointer == prepared_stack_pointer(
                stack_start as int,
                old(stack).len() as int,
            ),
            final(self).stack_pointer % 16 == 0,
            final(stack)@ == with_word(
                old(stack)@,
                final(self).stack_pointer - stack_start,
                entry,
            ),
            ready_to_switch(*final(self), final(stack)@, stack_start as int, entry),
    {
        let len: usize = stack.len();
        let size: u64 = len as u64;
        assert(size >= 16) by {
            if size < 16 {
                lemma_small_buffer_misses_slot(stack_start as int, size as int);
            }
        }
        let sp = stack_pointer_for(stack_start, size);
        let offset: usize = (sp - stack_start) as usize;
        write_word(stack, offset, entry);
        proof {
            lemma_read_after_write(old(stack)@, offset as int, entry);
        }
        self.stack_pointer = sp;
    }
}

} // verus!
