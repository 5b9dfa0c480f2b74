//! The ELF writer of the `object` crate, as far as the emitter drives it.

use vstd::prelude::*;
use object::write::{Object, SectionId, SymbolId};
use crate::flags::FileFlags;
use crate::image::{OutputSymbolFlags, OutputSymbolSection};
use crate::input::SectionFlags;
use crate::kinds::{class_of_symbol_kind, kind_is_bss, scope_is_unknown, SymbolClass};
use crate::reader::optional_bytes;

verus! {

/// `object::write::Object`, an object file under construction.
#[verifier::external_type_specification]
#[verifier::external_body]
pub struct ExWriteObject<'a>(Object<'a>);

/// `object::write::SectionId`, the handle of a section of a writer.
#[verifier::external_type_specification]
#[verifier::external_body]
pub struct ExSectionId(SectionId);

/// `object::write::SymbolId`, the handle of a symbol of a writer.
#[verifier::external_type_specification]
#[verifier::external_body]
pub struct ExSymbolId(SymbolId);

/// A relocation that a writer holds. Its symbol is named by its position
/// among the symbols of the writer.
pub struct WrittenRelocation {
    pub offset: u64,
    pub size: u8,
    pub kind: object::RelocationKind,
    pub encoding: object::RelocationEncoding,
    pub symbol: int,
    pub addend: i64,
}

/// A section that a writer holds, with its relocations in the order in
/// which they were added, and with the position of its section symbol
/// where it has one.
pub struct WrittenSection {
    pub segment: Seq<u8>,
    pub name: Seq<u8>,
    pub kind: object::SectionKind,
    pub size: u64,
    pub align: u64,
    pub data: Seq<u8>,
    pub flags: SectionFlags,
    pub symbol: Option<int>,
    pub relocations: Seq<WrittenRelocation>,
}

/// A symbol that a writer holds.
pub enum WrittenSymbol {
    /// The symbol that the writer makes for the section at a position: a
    /// local section symbol without a name, of value and size zero.
    OfSection { home: int, flags: OutputSymbolFlags },
    /// A symbol as it was handed to the writer; where it is attributed
    /// to a section, by the position of that section.
    Named {
        name: Seq<u8>,
        value: u64,
        size: u64,
        kind: object::SymbolKind,
        scope: object::SymbolScope,
        weak: bool,
        section: OutputSymbolSection,
        flags: OutputSymbolFlags,
    },
}

/// What a writer holds.
pub struct Written {
    pub sections: Seq<WrittenSection>,
    pub symbols: Seq<WrittenSymbol>,
    pub flags: FileFlags,
}

/// The sections that a writer holds, in the order in which they were
/// added.
pub uninterp spec fn elf_sections(elf: Object<'static>) -> Seq<WrittenSection>;

/// The symbols that a writer holds, in the order in which they were
/// added.
pub uninterp spec fn elf_symbols(elf: Object<'static>) -> Seq<WrittenSymbol>;

/// The file flags that a writer holds.
pub uninterp spec fn elf_flags(elf: Object<'static>) -> FileFlags;

/// The position among the sections of its writer that a handle stands
/// for.
pub uninterp spec fn section_position(id: SectionId) -> usize;

/// The position among the symbols of its writer that a handle stands
/// for.
pub uninterp spec fn symbol_position(id: SymbolId) -> usize;

/// Whether a writer is an ELF writer for 64-bit RISC-V that was built by
/// the operations of this module alone, each within its `requires`.
pub uninterp spec fn writable(elf: Object<'static>) -> bool;

/// Whether the writer refers a relocation of a kind against a symbol of
/// a kind and scope to the symbol of the symbol's section instead, as
/// it does for some symbols that could be preempted.
pub uninterp spec fn wants_section_symbol(
    kind: object::RelocationKind,
    symbol_kind: object::SymbolKind,
    scope: object::SymbolScope,
) -> bool;

/// The file that the writer makes of sections, symbols and flags, or
/// nothing where it cannot express them.
pub uninterp spec fn elf_bytes(
    sections: Seq<WrittenSection>,
    symbols: Seq<WrittenSymbol>,
    flags: FileFlags,
) -> Option<Seq<u8>>;

/// What a writer holds.
pub open spec fn contents(elf: Object<'static>) -> Written {
    Written { sections: elf_sections(elf), symbols: elf_symbols(elf), flags: elf_flags(elf) }
}

/// Whether a handle names a section of a writer.
pub open spec fn has_section(elf: Object<'static>, id: SectionId) -> bool {
    section_position(id) < elf_sections(elf).len()
}

/// Whether a handle names a symbol of a writer.
pub open spec fn has_symbol(elf: Object<'static>, id: SymbolId) -> bool {
    symbol_position(id) < elf_symbols(elf).len()
}

/// Whether an alignment is a power of two.
pub open spec fn is_alignment(align: u64) -> bool {
    align != 0 && align & sub_one(align) == 0
}

/// The number before a positive number.
pub open spec fn sub_one(value: u64) -> u64 {
    (value - 1) as u64
}

/// Whether a name holds no zero byte.
pub open spec fn is_name(name: Seq<u8>) -> bool {
    forall|i: int| 0 <= i < name.len() ==> name[i] != 0
}

/// What a writer holds once a section is put behind its sections.
pub open spec fn section_added(before: Written, section: WrittenSection) -> Written {
    Written { sections: before.sections.push(section), ..before }
}

/// What a writer holds once the symbol of the section at a position is
/// asked for, and the position of that symbol: the symbol that the
/// section has, or else a new one behind all symbols.
pub open spec fn section_symbol_of(before: Written, section: int) -> (Written, int) {
    match before.sections[section].symbol {
        Some(position) => (before, position),
        None => (
            Written {
                sections: before.sections.update(
                    section,
                    WrittenSection {
                        symbol: Some(before.symbols.len() as int),
                        ..before.sections[section]
                    },
                ),
                symbols: before.symbols.push(
                    WrittenSymbol::OfSection { home: section, flags: OutputSymbolFlags::NoFlags },
                ),
                ..before
            },
            before.symbols.len() as int,
        ),
    }
}

/// A symbol with flags put in the place of its own, unless there are
/// none to put.
pub open spec fn flagged(symbol: WrittenSymbol, flags: OutputSymbolFlags) -> WrittenSymbol {
    if flags is NoFlags {
        symbol
    } else {
        match symbol {
            WrittenSymbol::OfSection { home, .. } => WrittenSymbol::OfSection { home, flags },
            WrittenSymbol::Named { name, value, size, kind, scope, weak, section, .. } =>
                WrittenSymbol::Named { name, value, size, kind, scope, weak, section, flags },
        }
    }
}

/// What the writer needs to know of a symbol besides its name.
#[derive(Clone, Copy, Debug)]
pub struct SymbolParts {
    pub value: u64,
    pub size: u64,
    pub kind: object::SymbolKind,
    pub scope: object::SymbolScope,
    pub weak: bool,
    pub section: OutputSymbolSection,
    pub flags: OutputSymbolFlags,
}

/// The attribution of a symbol as the writer holds it: to the section at
/// position `home`, where it is attributed to a section.
pub open spec fn attribution(section: OutputSymbolSection, home: Option<usize>) -> OutputSymbolSection {
    match (section, home) {
        (OutputSymbolSection::Section(_), Some(position)) => OutputSymbolSection::Section(position),
        _ => section,
    }
}

/// What a writer holds once a symbol is handed to it, and the position
/// of the symbol: a section symbol is the one symbol of its section and
/// lends it its flags; any other symbol goes behind all symbols.
pub open spec fn symbol_added(
    before: Written,
    name: Seq<u8>,
    parts: SymbolParts,
    home: Option<usize>,
) -> (Written, int) {
    if class_of_symbol_kind(parts.kind) == SymbolClass::Section {
        let (next, position) = section_symbol_of(before, home->0 as int);
        (
            Written {
                symbols: next.symbols.update(
                    position,
                    flagged(next.symbols[position], parts.flags),
                ),
                ..next
            },
            position,
        )
    } else {
        (
            Written {
                symbols: before.symbols.push(
                    WrittenSymbol::Named {
                        name,
                        value: parts.value,
                        size: parts.size,
                        kind: parts.kind,
                        scope: parts.scope,
                        weak: parts.weak,
                        section: attribution(parts.section, home),
                        flags: parts.flags,
                    },
                ),
                ..before
            },
            before.symbols.len() as int,
        )
    }
}

/// What the writer needs to know of a relocation besides its section and
/// symbol.
#[derive(Clone, Copy, Debug)]
pub struct RelocationParts {
    pub offset: u64,
    pub size: u8,
    pub kind: object::RelocationKind,
    pub encoding: object::RelocationEncoding,
    pub addend: i64,
}

/// The section to whose symbol the writer refers a relocation against
/// the symbol at a position, where it does so.
pub open spec fn referred_section(before: Written, symbol: int, parts: RelocationParts) -> Option<
    usize,
> {
    match before.symbols[symbol] {
        WrittenSymbol::Named { kind, scope, section: OutputSymbolSection::Section(home), .. } => {
            if wants_section_symbol(parts.kind, kind, scope) {
                Some(home)
            } else {
                None
            }
        },
        _ => None,
    }
}

/// The value that the writer may add to the addend of a relocation
/// against the symbol at a position: that of a symbol that is handed to
/// the writer as attributed to a section.
pub open spec fn offset_in_section(before: Written, symbol: int) -> Option<u64> {
    match before.symbols[symbol] {
        WrittenSymbol::Named { value, section: OutputSymbolSection::Section(_), .. } => Some(value),
        _ => None,
    }
}

/// What a writer holds once a relocation is handed to it: the relocation
/// goes behind the relocations of its section, as it is, or referred to
/// the symbol of the section at position `referred` with the value of
/// its symbol added to its addend.
pub open spec fn relocation_added(
    before: Written,
    section: int,
    symbol: int,
    parts: RelocationParts,
    referred: Option<usize>,
) -> Written {
    let (next, target, addend) = match referred {
        Some(home) => {
            let (next, position) = section_symbol_of(before, home as int);
            (next, position, (parts.addend + offset_in_section(before, symbol)->0) as i64)
        },
        None => (before, symbol, parts.addend),
    };
    Written {
        sections: next.sections.update(
            section,
            WrittenSection {
                relocations: next.sections[section].relocations.push(
                    WrittenRelocation {
                        offset: parts.offset,
                        size: parts.size,
                        kind: parts.kind,
                        encoding: parts.encoding,
                        symbol: target,
                        addend,
                    },
                ),
                ..next.sections[section]
            },
        ),
        ..next
    }
}

/// Calls `Object::new` for an ELF file for 64-bit RISC-V in little-endian
/// byte order and sets `mangling` to none. The object holds no sections,
/// no symbols and no flags.
#[verifier::external_body]
pub(crate) fn elf_new() -> (elf: Object<'static>)
    ensures
        writable(elf),
        contents(elf) == (Written {
            sections: Seq::empty(),
            symbols: Seq::empty(),
            flags: FileFlags::Unset,
        }),
{
    let mut elf = Object::new(
        object::BinaryFormat::Elf,
        object::Architecture::Riscv64,
        object::Endianness::Little,
    );
    elf.mangling = object::write::Mangling::None;
    elf
}

/// Calls `Object::add_section`, then `set_data` on the new section, and
/// sets its `flags`. The new section goes behind the sections of the
/// object, without relocations and without a symbol; its size is the
/// length of its data. The handle that comes back stands for its
/// position.
///
/// The writer puts section names into a string table that panics on a
/// zero byte, and `set_data` expects a power of two as the alignment
/// and a kind of section that has contents.
#[verifier::external_body]
pub(crate) fn elf_add_data_section(
    elf: &mut Object<'static>,
    segment: Vec<u8>,
    name: Vec<u8>,
    kind: object::SectionKind,
    data: Vec<u8>,
    align: u64,
    flags: SectionFlags,
) -> (id: SectionId)
    requires
        writable(*old(elf)),
        is_name(name@),
        is_alignment(align),
        !kind_is_bss(kind),
    ensures
        writable(*final(elf)),
        section_position(id) == elf_sections(*old(elf)).len(),
        contents(*final(elf)) == section_added(
            contents(*old(elf)),
            WrittenSection {
                segment: segment@,
                name: name@,
                kind,
                size: data@.len() as u64,
                align,
                data: data@,
                flags,
                symbol: None,
                relocations: Seq::empty(),
            },
        ),
{
    let id = elf.add_section(segment, name, kind);
    let section = elf.section_mut(id);
    section.set_data(data, align);
    section.flags = match flags {
        SectionFlags::NoFlags => object::SectionFlags::None,
        SectionFlags::Elf { sh_flags } => object::SectionFlags::Elf { sh_flags },
        SectionFlags::MachO { flags } => object::SectionFlags::MachO { flags },
        SectionFlags::Coff { characteristics } => object::SectionFlags::Coff { characteristics },
    };
    id
}

/// Calls `Object::add_section`, then `append_bss` on the new section, and
/// sets its `flags`. The new section goes behind the sections of the
/// object, without data, relocations or symbol; its size is the size
/// reserved. The handle that comes back stands for its position.
///
/// The writer puts section names into a string table that panics on a
/// zero byte, and `append_bss` expects a power of two as the alignment
/// and a kind of section without contents.
#[verifier::external_body]
pub(crate) fn elf_add_bss_section(
    elf: &mut Object<'static>,
    segment: Vec<u8>,
    name: Vec<u8>,
    kind: object::SectionKind,
    size: u64,
    align: u64,
    flags: SectionFlags,
) -> (id: SectionId)
    requires
        writable(*old(elf)),
        is_name(name@),
        is_alignment(align),
        kind_is_bss(kind),
    ensures
        writable(*final(elf)),
        section_position(id) == elf_sections(*old(elf)).len(),
        contents(*final(elf)) == section_added(
            contents(*old(elf)),
            WrittenSection {
                segment: segment@,
                name: name@,
                kind,
                size,
                align,
                data: Seq::empty(),
                flags,
                symbol: None,
                relocations: Seq::empty(),
            },
        ),
{
    let id = elf.add_section(segment, name, kind);
    let section = elf.section_mut(id);
    section.append_bss(size, align);
    section.flags = match flags {
        SectionFlags::NoFlags => object::SectionFlags::None,
        SectionFlags::Elf { sh_flags } => object::SectionFlags::Elf { sh_flags },
        SectionFlags::MachO { flags } => object::SectionFlags::MachO { flags },
        SectionFlags::Coff { characteristics } => object::SectionFlags::Coff { characteristics },
    };
    id
}

/// Calls `Object::add_symbol`. A section symbol is not added: the writer
/// takes the one symbol of its section, which it makes where the section
/// has none, and gives it the flags of the symbol handed in, if that has
/// flags. Any other symbol goes behind the symbols of the object as it
/// is. The handle that comes back stands for the position of the symbol.
///
/// The writer puts symbol names into a string table that panics on a
/// zero byte; it takes the section of a section symbol for granted,
/// expects a scope of every symbol that is not undefined, and expects
/// only file symbols without a section. `home` is the handle of the
/// section that the symbol is attributed to, if it is attributed to one.
#[verifier::external_body]
pub(crate) fn elf_add_symbol(
    elf: &mut Object<'static>,
    name: Vec<u8>,
    parts: SymbolParts,
    home: Option<SectionId>,
) -> (id: SymbolId)
    requires
        writable(*old(elf)),
        is_name(name@),
        parts.section is Section <==> home is Some,
        home matches Some(section) ==> has_section(*old(elf), section),
        class_of_symbol_kind(parts.kind) == SymbolClass::Section ==> parts.section is Section,
        parts.section is NoSection ==> class_of_symbol_kind(parts.kind) == SymbolClass::File,
        !(parts.section is Undefined) ==> !scope_is_unknown(parts.scope),
    ensures
        writable(*final(elf)),
        (contents(*final(elf)), symbol_position(id) as int) == symbol_added(
            contents(*old(elf)),
            name@,
            parts,
            match home {
                Some(section) => Some(section_position(section)),
                None => None,
            },
        ),
{
    let section = match (parts.section, home) {
        (OutputSymbolSection::Section(_), Some(id)) => object::write::SymbolSection::Section(id),
        (OutputSymbolSection::Undefined, _) => object::write::SymbolSection::Undefined,
        (OutputSymbolSection::Absolute, _) => object::write::SymbolSection::Absolute,
        (OutputSymbolSection::Common, _) => object::write::SymbolSection::Common,
        _ => object::write::SymbolSection::None,
    };
    let flags = match parts.flags {
        OutputSymbolFlags::NoFlags => object::SymbolFlags::None,
        OutputSymbolFlags::Elf { st_info, st_other } => object::SymbolFlags::Elf { st_info, st_other },
    };
    let SymbolParts { value, size, kind, scope, weak, .. } = parts;
    elf.add_symbol(object::write::Symbol { name, value, size, kind, scope, weak, section, flags })
}

/// Calls `Object::section_symbol`, which gives the symbol of a section
/// and makes it, behind the symbols of the object, where the section
/// has none. The handle that comes back stands for the position of the
/// symbol.
#[verifier::external_body]
pub(crate) fn elf_section_symbol(elf: &mut Object<'static>, section: SectionId) -> (id: SymbolId)
    requires
        writable(*old(elf)),
        has_section(*old(elf), section),
    ensures
        writable(*final(elf)),
        (contents(*final(elf)), symbol_position(id) as int) == section_symbol_of(
            contents(*old(elf)),
            section_position(section) as int,
        ),
{
    elf.section_symbol(section)
}

/// Calls `Object::add_relocation`, which for this architecture takes
/// every relocation. The relocation goes behind the relocations of its
/// section. Where the writer refers it to the symbol of the section of
/// its symbol, it makes that symbol where the section has none, and adds
/// the value of the symbol of the relocation to the addend.
///
/// The writer looks the symbol up, and its sum of value and addend must
/// not overflow.
#[verifier::external_body]
pub(crate) fn elf_add_relocation(
    elf: &mut Object<'static>,
    section: SectionId,
    symbol: SymbolId,
    parts: RelocationParts,
) -> (taken: bool)
    requires
        writable(*old(elf)),
        has_section(*old(elf), section),
        has_symbol(*old(elf), symbol),
        offset_in_section(contents(*old(elf)), symbol_position(symbol) as int) matches Some(value)
            ==> value <= i64::MAX && i64::MIN <= parts.addend + value <= i64::MAX,
    ensures
        taken,
        writable(*final(elf)),
        contents(*final(elf)) == relocation_added(
            contents(*old(elf)),
            section_position(section) as int,
            symbol_position(symbol) as int,
            parts,
            match elf_symbols(*old(elf))[symbol_position(symbol) as int] {
                WrittenSymbol::Named {
                    kind,
                    scope,
                    section: OutputSymbolSection::Section(home),
                    ..
                } => if wants_section_symbol(parts.kind, kind, scope) {
                    Some(home)
                } else {
                    None
                },
                _ => None,
            },
        ),
{
    let RelocationParts { offset, size, kind, encoding, addend } = parts;
    elf.add_relocation(section, object::write::Relocation { offset, size, kind, encoding, symbol, addend }).is_ok()
}

/// Sets the `flags` of the object to ELF flags. The sections and symbols
/// stay.
#[verifier::external_body]
pub(crate) fn elf_set_flags(elf: &mut Object<'static>, e_flags: u32)
    requires
        writable(*old(elf)),
    ensures
        writable(*final(elf)),
        contents(*final(elf)) == (Written {
            flags: FileFlags::Elf { e_flags },
            ..contents(*old(elf))
        }),
{
    elf.flags = object::FileFlags::Elf { e_flags };
}

/// Calls `Object::write`, which serializes what the object holds, or
/// refuses where it cannot express it. The result is a function of the
/// sections, symbols and flags of the object.
#[verifier::external_body]
pub(crate) fn elf_write(elf: &Object<'static>) -> (bytes: Option<Vec<u8>>)
    requires
        writable(*elf),
    ensures
        optional_bytes(bytes) == elf_bytes(elf_sections(*elf), elf_symbols(*elf), elf_flags(*elf)),
{
    elf.write().ok()
}

} // verus!
