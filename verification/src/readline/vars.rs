//! The line editor's state word.
//!
//! The native library keeps its run-time state as a word of flag bits.
//! The flags this binding's callers look at are named here, and a flag
//! test is a plain bit test.

use vstd::prelude::*;

verus! {

/// The editor has been initialized.
pub const RL_STATE_INITIALIZED: u32 = 0x0000002;

/// The terminal has been prepared for input.
pub const RL_STATE_TERMPREPPED: u32 = 0x0000004;

/// The editor is reading a command.
pub const RL_STATE_READCMD: u32 = 0x0000008;

/// A line read is complete.
pub const RL_STATE_DONE: u32 = 0x1000000;

/// Whether the state word has every bit of the given flag set.
pub fn state_has(bits: u32, flag: u32) -> (r: bool)
    ensures
        r == (bits & flag == flag),
{
    bits & flag == flag
}

} // verus!
