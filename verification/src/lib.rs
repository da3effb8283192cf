//! An in-process developer console library: a text command line whose input
//! is tokenized, matched against registered commands, parsed into typed
//! command values, and whose results are echoed into an append-only
//! scrollback log.

pub mod command;
pub mod commands;
pub mod console;
pub mod errors;
pub mod numeric;
pub mod registry;
pub mod tokenizer;

use vstd::prelude::*;

verus! {

/// Adds two sizes.
pub fn add(left: usize, right: usize) -> (r: usize)
    requires
        left + right <= usize::MAX,
    ensures
        r == left + right,
{
    left + right
}

} // verus!
