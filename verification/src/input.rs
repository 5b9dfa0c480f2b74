//! The linker's model of a relocatable input object: the values that the
//! link decisions read, held as plain data.

use vstd::prelude::*;
use crate::flags::FileFlags;

verus! {

/// The section that a symbol is attributed to.
#[derive(Clone, Copy, Debug, PartialEq, Eq, Structural)]
pub enum SymbolSection {
    /// The attribution could not be determined.
    Unknown,
    /// No section applies to the symbol.
    NoSection,
    /// The symbol is undefined.
    Undefined,
    /// The symbol has an absolute value.
    Absolute,
    /// The symbol is a common symbol.
    Common,
    /// The symbol is defined in the section with this index.
    Section(usize),
}

/// What a relocation refers to.
#[derive(Clone, Copy, Debug, PartialEq, Eq, Structural)]
pub enum RelocationTarget {
    /// The symbol with this index in the same object.
    Symbol(usize),
    /// The section with this index in the same object.
    Section(usize),
    /// Anything else, such as an absolute address.
    Other,
}

/// Format-specific flags of a symbol.
#[derive(Clone, Copy, Debug, PartialEq, Eq, Structural)]
pub enum SymbolFlags {
    /// No flags are recorded.
    NoFlags,
    /// The `st_info` and `st_other` fields of an ELF symbol.
    Elf { st_info: u8, st_other: u8 },
    /// Flags of a file format that is not linked here.
    Other,
}

/// Format-specific flags of a section.
#[derive(Clone, Copy, Debug, PartialEq, Eq, Structural)]
pub enum SectionFlags {
    /// No flags are recorded.
    NoFlags,
    /// The `sh_flags` field of an ELF section header.
    Elf { sh_flags: u64 },
    /// Mach-O section flags.
    MachO { flags: u32 },
    /// COFF section characteristics.
    Coff { characteristics: u32 },
}

/// A relocation of an input section.
#[derive(Clone, Copy, Debug)]
pub struct InputRelocation {
    /// Offset of the place within the section.
    pub offset: u64,
    /// Size of the place in bits.
    pub size: u8,
    pub kind: object::RelocationKind,
    pub encoding: object::RelocationEncoding,
    pub target: RelocationTarget,
    pub addend: i64,
}

/// A section of an input object. Its index is its position among the
/// sections of the object.
#[derive(Debug)]
pub struct InputSection {
    /// The section's name; `None` where it cannot be read.
    pub name: Option<String>,
    /// The name of the segment that holds the section, empty where the
    /// format has none; `None` where it cannot be read.
    pub segment: Option<String>,
    pub kind: object::SectionKind,
    /// The section's contents; `None` where they cannot be read.
    pub data: Option<Vec<u8>>,
    pub size: u64,
    pub align: u64,
    pub address: u64,
    pub flags: SectionFlags,
    pub relocations: Vec<InputRelocation>,
}

/// A symbol of an input object. Its index is its position among the
/// symbols of the object.
#[derive(Debug)]
pub struct InputSymbol {
    /// The bytes of the symbol's name; `None` where they cannot be read.
    pub name: Option<Vec<u8>>,
    pub kind: object::SymbolKind,
    pub scope: object::SymbolScope,
    pub weak: bool,
    pub section: SymbolSection,
    pub address: u64,
    pub size: u64,
    pub flags: SymbolFlags,
}

/// A relocatable ELF object for 64-bit RISC-V.
#[derive(Debug)]
pub struct InputObject {
    pub flags: FileFlags,
    /// The number of COMDAT section groups in the object.
    pub comdats: usize,
    pub sections: Vec<InputSection>,
    pub symbols: Vec<InputSymbol>,
}

} // verus!
