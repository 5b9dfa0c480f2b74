//! Classifications that the object reader assigns and the linker only
//! tests or carries through.

use vstd::prelude::*;

verus! {

/// `object::SectionKind`, the kind of a section.
#[verifier::external_type_specification]
#[verifier::external_body]
pub struct ExSectionKind(object::SectionKind);

/// `object::SymbolKind`, the kind of a symbol.
#[verifier::external_type_specification]
#[verifier::external_body]
pub struct ExSymbolKind(object::SymbolKind);

/// `object::SymbolScope`, the scope of a symbol.
#[verifier::external_type_specification]
#[verifier::external_body]
pub struct ExSymbolScope(object::SymbolScope);

/// `object::RelocationKind`, the operation of a relocation.
#[verifier::external_type_specification]
#[verifier::external_body]
pub struct ExRelocationKind(object::RelocationKind);

/// `object::RelocationEncoding`, the encoding of the place of a relocation.
#[verifier::external_type_specification]
#[verifier::external_body]
pub struct ExRelocationEncoding(object::RelocationEncoding);

/// `object::BinaryFormat`, the format of an object file.
#[verifier::external_type_specification]
#[verifier::external_body]
pub struct ExBinaryFormat(object::BinaryFormat);

/// `object::Architecture`, the architecture of an object file.
#[verifier::external_type_specification]
#[verifier::external_body]
pub struct ExArchitecture(object::Architecture);

/// Whether a section kind is `object::SectionKind::Metadata`.
pub uninterp spec fn kind_is_metadata(kind: object::SectionKind) -> bool;

/// What `object::SectionKind::is_bss` returns for a section kind.
pub uninterp spec fn kind_is_bss(kind: object::SectionKind) -> bool;

/// The classes of symbol kinds that the linker treats differently.
#[derive(Clone, Copy, Debug, PartialEq, Eq, Structural)]
pub enum SymbolClass {
    /// The null symbol at the start of a symbol table.
    Null,
    /// A symbol that names a source file.
    File,
    /// A symbol that stands for a section.
    Section,
    /// Any other kind of symbol.
    Other,
}

/// The class of a symbol kind.
pub uninterp spec fn class_of_symbol_kind(kind: object::SymbolKind) -> SymbolClass;

/// Whether a symbol scope is `object::SymbolScope::Unknown`.
pub uninterp spec fn scope_is_unknown(scope: object::SymbolScope) -> bool;

/// Whether a binary format is `object::BinaryFormat::Elf`.
pub uninterp spec fn format_is_elf(format: object::BinaryFormat) -> bool;

/// Whether an architecture is `object::Architecture::Riscv64`.
pub uninterp spec fn architecture_is_riscv64(architecture: object::Architecture) -> bool;

/// Compares a section kind with `object::SectionKind::Metadata`.
#[verifier::external_body]
pub(crate) fn is_metadata(kind: object::SectionKind) -> (b: bool)
    ensures
        b == kind_is_metadata(kind),
{
    kind == object::SectionKind::Metadata
}

/// Calls `object::SectionKind::is_bss`, which holds for the kinds of
/// sections that occupy no space in the file.
#[verifier::external_body]
pub(crate) fn is_bss(kind: object::SectionKind) -> (b: bool)
    ensures
        b == kind_is_bss(kind),
{
    kind.is_bss()
}

/// Tells the variants of `object::SymbolKind` apart.
#[verifier::external_body]
pub(crate) fn symbol_class(kind: object::SymbolKind) -> (class: SymbolClass)
    ensures
        class == class_of_symbol_kind(kind),
{
    match kind {
        object::SymbolKind::Null => SymbolClass::Null,
        object::SymbolKind::File => SymbolClass::File,
        object::SymbolKind::Section => SymbolClass::Section,
        _ => SymbolClass::Other,
    }
}

/// Compares a symbol scope with `object::SymbolScope::Unknown`.
#[verifier::external_body]
pub(crate) fn is_unknown_scope(scope: object::SymbolScope) -> (b: bool)
    ensures
        b == scope_is_unknown(scope),
{
    scope == object::SymbolScope::Unknown
}

/// Compares a binary format with `object::BinaryFormat::Elf`.
#[verifier::external_body]
pub(crate) fn is_elf(format: object::BinaryFormat) -> (b: bool)
    ensures
        b == format_is_elf(format),
{
    format == object::BinaryFormat::Elf
}

/// Compares an architecture with `object::Architecture::Riscv64`.
#[verifier::external_body]
pub(crate) fn is_riscv64(architecture: object::Architecture) -> (b: bool)
    ensures
        b == architecture_is_riscv64(architecture),
{
    architecture == object::Architecture::Riscv64
}

} // verus!
