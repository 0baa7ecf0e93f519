//! Toolchain for a small 8/16-bit stack-oriented computer: an assembler that
//! turns assembly text into 16-bit machine words, and a cycle-level emulator
//! that executes them.  The assembler pipeline is: syntax tree, program
//! skeleton (with two-pass anchor resolution and macro expansion), binary
//! encoding.  Both sides agree bit for bit on the instruction-word layout.
use vstd::prelude::*;

pub mod assembly_encode;
pub mod compiler;
pub mod emulator;
pub mod macros;
pub mod program_skeleton;
pub mod syntax_tree;
pub mod scan;

verus! {

/// Number of addressable cells in each memory space, and the bound on the
/// number of instructions in a program.
pub const POWER_16: usize = 65536;

/// Largest number of instructions a program may hold.
pub const PROG_MAX_INSTRUCTIONS: usize = 65536;

/// Character that introduces a macro.
pub const MACRO_BEGIN: char = '@';

/// Character that introduces a comment.
pub const COMMENT_BEGIN: char = '#';

} // verus!
