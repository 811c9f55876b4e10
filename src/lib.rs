//! Preparation of a hand-built call stack for a one-way context switch.
//!
//! The library computes where the resume slot of a fresh stack lies, writes
//! the entry address into that slot and fills the context record that the
//! switch routine consumes. The switch itself, which rewrites the processor's
//! stack-pointer register, is not part of the library.

pub mod context;
pub mod layout;
pub mod word;
