//! A runtime for a small stack-based, concatenative language.
//!
//! Source text is tokenized on first encounter and replayed as a flat,
//! randomly-addressable instruction sequence. Control flow (word calls,
//! conditionals, loops, first-class code references) is implemented through
//! index-based jumps into that sequence plus an auxiliary control stack that
//! doubles as a call-return stack and a loop/variable scratch area.
use vstd::prelude::*;

pub mod arith;
pub mod laws;
pub mod natives;
pub mod stack;
pub mod step;
pub mod text;
pub mod token;
pub mod virtual_machine;

verus! {

} // verus!
