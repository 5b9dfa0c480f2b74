//! A minimalist static linker core for 64-bit RISC-V ELF files.
//!
//! The crate decides which input sections are kept, in which order they are
//! laid out, which symbols and relocations follow them into the output, and
//! how the processor-specific header flags of the inputs are merged.

pub mod cmd;
pub mod config;
pub mod context;
pub mod contribution;
pub mod copy;
pub mod emit;
pub mod error;
pub mod flags;
pub mod gather;
pub mod image;
pub mod input;
pub mod kinds;
pub mod layout;
pub mod manifest;
pub mod order;
pub mod ordered_set;
pub mod output;
pub mod reader;
pub mod search;
pub mod wildcard;
pub mod writer;
