//! A zero-copy reader for the compact unwind info (`__unwind_info`) section of
//! mach-O binaries.
//!
//! [`UnwindInfo::lookup`] finds the unwinding opcode of the function covering
//! an address with two binary searches, one over the page entries and one
//! inside a page; [`UnwindInfo::pages`] walks the same structure in order. The
//! opcodes are then decoded per architecture with the types of [`opcodes`].
//! Parsing checks only the header and the top-level arrays; page bodies are
//! checked when they are read, and malformed data gives an [`Error`], never a
//! panic or an out-of-bounds read.
pub mod error;
pub mod info;
pub mod opcodes;
pub mod raw;
pub mod reader;
pub mod search;

pub use error::{Error, ReadError};
pub use info::{Function, FunctionIter, Page, PageIter, UnwindInfo};
pub use opcodes::arm64::OpcodeArm64;
pub use opcodes::x86::{OpcodeX86, RegisterNameX86};
pub use opcodes::x86_64::{OpcodeX86_64, RegisterNameX86_64};
pub use opcodes::{
    decode_opcode, Architecture, DecodedOpcode, OpcodeBitfield, SavedRegister, UnwindRule,
};
