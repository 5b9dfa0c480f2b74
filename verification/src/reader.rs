//! Reading relocatable objects and archives with the `object` crate, and
//! loading an object into the linker's model of it.

use vstd::prelude::*;
use vstd::slice::*;
use object::{Object, ObjectSection, ObjectSymbol};
use crate::config::optional_text;
use crate::flags::FileFlags;
use crate::input::{
    InputObject, InputRelocation, InputSection, InputSymbol, RelocationTarget, SectionFlags,
    SymbolFlags, SymbolSection,
};
use crate::kinds::{architecture_is_riscv64, format_is_elf, is_elf, is_riscv64};

verus! {

/// What the reader says of an object file as a whole.
#[derive(Clone, Copy, Debug)]
pub struct ObjectHeader {
    pub format: object::BinaryFormat,
    pub architecture: object::Architecture,
    pub flags: FileFlags,
    /// The number of COMDAT section groups.
    pub comdats: usize,
    /// The number of sections that the reader walks.
    pub sections: usize,
    /// The number of symbols that the reader walks.
    pub symbols: usize,
}

/// What the reader says of a section, but for its name and contents.
#[derive(Clone, Copy, Debug)]
pub struct SectionShape {
    pub index: usize,
    pub kind: object::SectionKind,
    pub size: u64,
    pub align: u64,
    pub address: u64,
    pub flags: SectionFlags,
    /// The number of relocations that the reader walks.
    pub relocations: usize,
}

/// What the reader says of a symbol, but for its name and section.
#[derive(Clone, Copy, Debug)]
pub struct SymbolShape {
    pub index: usize,
    pub kind: object::SymbolKind,
    pub scope: object::SymbolScope,
    pub weak: bool,
    pub address: u64,
    pub size: u64,
    pub flags: SymbolFlags,
}

/// The view of optional bytes.
pub open spec fn optional_bytes(bytes: Option<Vec<u8>>) -> Option<Seq<u8>> {
    match bytes {
        Some(b) => Some(b@),
        None => None,
    }
}

/// The view of an optional name that may be absent.
pub open spec fn optional_name(name: Option<Option<String>>) -> Option<Option<Seq<char>>> {
    match name {
        Some(n) => Some(optional_text(n)),
        None => None,
    }
}

/// The header that the reader finds in a file, or nothing where it cannot
/// parse the file.
pub uninterp spec fn header_of(data: Seq<u8>) -> Option<ObjectHeader>;

/// The shape of the section that the reader walks at a position.
pub uninterp spec fn section_shape_of(data: Seq<u8>, position: int) -> Option<SectionShape>;

/// The name of the section at a position, where the reader can read it.
pub uninterp spec fn section_name_of(data: Seq<u8>, position: int) -> Option<Seq<char>>;

/// The segment name of the section at a position, which may be absent,
/// where the reader can read it.
pub uninterp spec fn section_segment_of(data: Seq<u8>, position: int) -> Option<Option<Seq<char>>>;

/// The contents of the section at a position, where the reader can read
/// them.
pub uninterp spec fn section_data_of(data: Seq<u8>, position: int) -> Option<Seq<u8>>;

/// The relocation that the reader walks at a position within the section
/// at a position.
pub uninterp spec fn relocation_of(data: Seq<u8>, section: int, position: int) -> Option<
    InputRelocation,
>;

/// The shape of the symbol that the reader walks at a position.
pub uninterp spec fn symbol_shape_of(data: Seq<u8>, position: int) -> Option<SymbolShape>;

/// The section attribution of the symbol at a position.
pub uninterp spec fn symbol_section_of(data: Seq<u8>, position: int) -> SymbolSection;

/// The bytes of the name of the symbol at a position, where the reader
/// can read them.
pub uninterp spec fn symbol_name_of(data: Seq<u8>, position: int) -> Option<Seq<u8>>;

/// Calls `object::File::parse` and, on the parsed file, `format`,
/// `architecture`, `flags`, and `count` on `comdats`, `sections` and
/// `symbols`. The result is a function of the bytes.
#[verifier::external_body]
fn read_header(data: &[u8]) -> (header: Option<ObjectHeader>)
    ensures
        header == header_of(data@),
{
    let file = object::File::parse(data).ok()?;
    let flags = match file.flags() {
        object::FileFlags::None => FileFlags::Unset,
        object::FileFlags::Elf { e_flags } => FileFlags::Elf { e_flags },
        _ => FileFlags::Other,
    };
    let (format, architecture) = (file.format(), file.architecture());
    let (comdats, sections) = (file.comdats().count(), file.sections().count());
    Some(ObjectHeader { format, architecture, flags, comdats, sections, symbols: file.symbols().count() })
}

/// Calls `object::File::parse`, takes the section at a position of
/// `sections`, and calls `index`, `kind`, `size`, `align`, `address`,
/// `flags` and `relocations().count()` on it. The result is a function
/// of the bytes and the position.
#[verifier::external_body]
fn read_section_shape(data: &[u8], position: usize) -> (shape: Option<SectionShape>)
    ensures
        shape == section_shape_of(data@, position as int),
{
    let file = object::File::parse(data).ok()?;
    let s = file.sections().nth(position)?;
    let flags = match s.flags() {
        object::SectionFlags::Elf { sh_flags } => SectionFlags::Elf { sh_flags },
        object::SectionFlags::MachO { flags } => SectionFlags::MachO { flags },
        object::SectionFlags::Coff { characteristics } => SectionFlags::Coff { characteristics },
        _ => SectionFlags::NoFlags,
    };
    let (index, kind, size, align) = (s.index().0, s.kind(), s.size(), s.align());
    Some(SectionShape { index, kind, size, align, address: s.address(), flags, relocations: s.relocations().count() })
}

/// Calls `object::File::parse`, takes the section at a position of
/// `sections`, and calls `name` on it. The result is a function of the
/// bytes and the position.
#[verifier::external_body]
fn read_section_name(data: &[u8], position: usize) -> (name: Option<String>)
    ensures
        optional_text(name) == section_name_of(data@, position as int),
{
    let file = object::File::parse(data).ok()?;
    let section = file.sections().nth(position)?;
    section.name().ok().map(String::from)
}

/// Calls `object::File::parse`, takes the section at a position of
/// `sections`, and calls `segment_name` on it. The result is a function
/// of the bytes and the position.
#[verifier::external_body]
fn read_section_segment(data: &[u8], position: usize) -> (segment: Option<Option<String>>)
    ensures
        optional_name(segment) == section_segment_of(data@, position as int),
{
    let file = object::File::parse(data).ok()?;
    let section = file.sections().nth(position)?;
    Some(section.segment_name().ok()?.map(String::from))
}

/// Calls `object::File::parse`, takes the section at a position of
/// `sections`, and calls `data` on it. The result is a function of the
/// bytes and the position.
#[verifier::external_body]
fn read_section_data(data: &[u8], position: usize) -> (contents: Option<Vec<u8>>)
    ensures
        optional_bytes(contents) == section_data_of(data@, position as int),
{
    let file = object::File::parse(data).ok()?;
    let section = file.sections().nth(position)?;
    section.data().ok().map(Vec::from)
}

/// Calls `object::File::parse`, takes the section at a position of
/// `sections` and the relocation at a position of its `relocations`, and
/// calls `size`, `kind`, `encoding`, `target` and `addend` on it. The
/// result is a function of the bytes and the two positions.
#[verifier::external_body]
fn read_relocation(data: &[u8], section: usize, position: usize) -> (relocation: Option<
    InputRelocation,
>)
    ensures
        relocation == relocation_of(data@, section as int, position as int),
{
    let file = object::File::parse(data).ok()?;
    let (offset, r) = file.sections().nth(section)?.relocations().nth(position)?;
    let target = match r.target() {
        object::RelocationTarget::Symbol(index) => RelocationTarget::Symbol(index.0),
        object::RelocationTarget::Section(index) => RelocationTarget::Section(index.0),
        _ => RelocationTarget::Other,
    };
    let (size, kind, encoding) = (r.size(), r.kind(), r.encoding());
    Some(InputRelocation { offset, size, kind, encoding, target, addend: r.addend() })
}

/// Calls `object::File::parse`, takes the symbol at a position of
/// `symbols`, and calls `index`, `kind`, `scope`, `is_weak`, `address`,
/// `size` and `flags` on it. The result is a function of the bytes and
/// the position.
#[verifier::external_body]
fn read_symbol_shape(data: &[u8], position: usize) -> (shape: Option<SymbolShape>)
    ensures
        shape == symbol_shape_of(data@, position as int),
{
    let file = object::File::parse(data).ok()?;
    let s = file.symbols().nth(position)?;
    let flags = match s.flags() {
        object::SymbolFlags::None => SymbolFlags::NoFlags,
        object::SymbolFlags::Elf { st_info, st_other } => SymbolFlags::Elf { st_info, st_other },
        _ => SymbolFlags::Other,
    };
    let (index, kind, scope, weak) = (s.index().0, s.kind(), s.scope(), s.is_weak());
    Some(SymbolShape { index, kind, scope, weak, address: s.address(), size: s.size(), flags })
}

/// Calls `object::File::parse`, takes the symbol at a position of
/// `symbols`, and calls `section` on it; a file that cannot be parsed and
/// a position without a symbol give an unknown attribution. The result
/// is a function of the bytes and the position.
#[verifier::external_body]
fn read_symbol_section(data: &[u8], position: usize) -> (section: SymbolSection)
    ensures
        section == symbol_section_of(data@, position as int),
{
    let symbol = object::File::parse(data).ok().and_then(|file| file.symbols().nth(position).map(|s| s.section()));
    match symbol {
        Some(object::SymbolSection::None) => SymbolSection::NoSection,
        Some(object::SymbolSection::Undefined) => SymbolSection::Undefined,
        Some(object::SymbolSection::Absolute) => SymbolSection::Absolute,
        Some(object::SymbolSection::Common) => SymbolSection::Common,
        Some(object::SymbolSection::Section(index)) => SymbolSection::Section(index.0),
        _ => SymbolSection::Unknown,
    }
}

/// Calls `object::File::parse`, takes the symbol at a position of
/// `symbols`, and calls `name_bytes` on it. The result is a function of
/// the bytes and the position.
#[verifier::external_body]
fn read_symbol_name(data: &[u8], position: usize) -> (name: Option<Vec<u8>>)
    ensures
        optional_bytes(name) == symbol_name_of(data@, position as int),
{
    let file = object::File::parse(data).ok()?;
    let symbol = file.symbols().nth(position)?;
    symbol.name_bytes().ok().map(Vec::from)
}

/// The number of members that the reader walks in an archive, or
/// nothing where it cannot parse the archive.
pub uninterp spec fn member_count_of(data: Seq<u8>) -> Option<usize>;

/// Where the contents of the archive member at a position lie in the
/// archive: their offset and their length. Nothing where the reader
/// cannot read the member.
pub uninterp spec fn member_range_of(data: Seq<u8>, position: int) -> Option<(u64, u64)>;

/// The name of the archive member at a position, where the reader can
/// read the member and its name is UTF-8.
pub uninterp spec fn member_name_of(data: Seq<u8>, position: int) -> Option<Seq<char>>;

/// Calls `object::read::archive::ArchiveFile::parse` and counts what
/// `members` walks. The result is a function of the bytes.
#[verifier::external_body]
pub(crate) fn read_member_count(data: &[u8]) -> (count: Option<usize>)
    ensures
        count == member_count_of(data@),
{
    let archive = object::read::archive::ArchiveFile::parse(data).ok()?;
    Some(archive.members().count())
}

/// Calls `object::read::archive::ArchiveFile::parse`, takes the member at
/// a position of `members`, and calls `file_range` on it. The result is
/// a function of the bytes and the position.
#[verifier::external_body]
pub(crate) fn read_member_range(data: &[u8], position: usize) -> (range: Option<(u64, u64)>)
    ensures
        range == member_range_of(data@, position as int),
{
    let archive = object::read::archive::ArchiveFile::parse(data).ok()?;
    let member = archive.members().nth(position)?.ok()?;
    Some(member.file_range())
}

/// Calls `object::read::archive::ArchiveFile::parse`, takes the member at
/// a position of `members`, calls `name` on it and converts the bytes
/// with `std::str::from_utf8`. The result is a function of the bytes and
/// the position.
#[verifier::external_body]
pub(crate) fn read_member_name(data: &[u8], position: usize) -> (name: Option<String>)
    ensures
        optional_text(name) == member_name_of(data@, position as int),
{
    let archive = object::read::archive::ArchiveFile::parse(data).ok()?;
    let member = archive.members().nth(position)?.ok()?;
    std::str::from_utf8(member.name()).ok().map(String::from)
}

/// Why an object cannot be loaded.
#[derive(Clone, Copy, Debug)]
pub enum LoadError {
    /// The reader cannot parse the file.
    Unparsed,
    /// The file is no ELF file.
    UnsupportedFormat(object::BinaryFormat),
    /// The file is not for 64-bit RISC-V.
    UnsupportedArchitecture(object::Architecture),
    /// The reader gives no account of a section, a symbol or a
    /// relocation that it counted, or numbers the sections or symbols
    /// otherwise than by their positions.
    Inconsistent,
}

/// The segment name of a section where the reader names none: the empty
/// name.
pub open spec fn segment_or_empty(segment: Option<Option<Seq<char>>>) -> Option<Seq<char>> {
    match segment {
        None => None,
        Some(None) => Some(Seq::empty()),
        Some(Some(name)) => Some(name),
    }
}

/// Whether the reader gives an account of the section at `position`
/// under its own index, and of each of its relocations.
pub open spec fn section_readable(data: Seq<u8>, position: int) -> bool {
    &&& section_shape_of(data, position) matches Some(shape)
    &&& shape.index == position
    &&& forall|r: int| 0 <= r < shape.relocations ==> #[trigger] relocation_of(data, position, r) is Some
}

/// Whether the reader gives an account of the symbol at `position`
/// under its own index.
pub open spec fn symbol_readable(data: Seq<u8>, position: int) -> bool {
    symbol_shape_of(data, position) matches Some(shape) && shape.index == position
}

/// Whether the reader gives an account of every section, symbol and
/// relocation that it counts.
pub open spec fn object_readable(data: Seq<u8>, header: ObjectHeader) -> bool {
    &&& forall|s: int| 0 <= s < header.sections ==> #[trigger] section_readable(data, s)
    &&& forall|s: int| 0 <= s < header.symbols ==> #[trigger] symbol_readable(data, s)
}

/// Whether `section` holds what the reader says of the section at
/// `position`.
pub open spec fn section_loaded(data: Seq<u8>, position: int, section: InputSection) -> bool {
    &&& section_shape_of(data, position) matches Some(shape)
    &&& section.kind == shape.kind
    &&& section.size == shape.size
    &&& section.align == shape.align
    &&& section.address == shape.address
    &&& section.flags == shape.flags
    &&& optional_text(section.name) == section_name_of(data, position)
    &&& optional_text(section.segment) == segment_or_empty(section_segment_of(data, position))
    &&& optional_bytes(section.data) == section_data_of(data, position)
    &&& section.relocations@.len() == shape.relocations
    &&& forall|r: int|
        0 <= r < shape.relocations ==> relocation_of(data, position, r) == Some(
            #[trigger] section.relocations@[r],
        )
}

/// Whether `symbol` holds what the reader says of the symbol at
/// `position`.
pub open spec fn symbol_loaded(data: Seq<u8>, position: int, symbol: InputSymbol) -> bool {
    &&& symbol_shape_of(data, position) matches Some(shape)
    &&& symbol.kind == shape.kind
    &&& symbol.scope == shape.scope
    &&& symbol.weak == shape.weak
    &&& symbol.address == shape.address
    &&& symbol.size == shape.size
    &&& symbol.flags == shape.flags
    &&& symbol.section == symbol_section_of(data, position)
    &&& optional_bytes(symbol.name) == symbol_name_of(data, position)
}

/// Whether `object` holds what the reader says of the file.
pub open spec fn object_loaded(data: Seq<u8>, object: InputObject) -> bool {
    &&& header_of(data) matches Some(header)
    &&& object.flags == header.flags
    &&& object.comdats == header.comdats
    &&& object.sections@.len() == header.sections
    &&& object.symbols@.len() == header.symbols
    &&& forall|s: int|
        0 <= s < header.sections ==> section_loaded(data, s, #[trigger] object.sections@[s])
    &&& forall|s: int|
        0 <= s < header.symbols ==> symbol_loaded(data, s, #[trigger] object.symbols@[s])
}

/// The outcome of loading a file, but for the object itself: only ELF
/// files for 64-bit RISC-V are loaded.
pub open spec fn load_outcome(data: Seq<u8>) -> Result<(), LoadError> {
    match header_of(data) {
        None => Err(LoadError::Unparsed),
        Some(header) => if !format_is_elf(header.format) {
            Err(LoadError::UnsupportedFormat(header.format))
        } else if !architecture_is_riscv64(header.architecture) {
            Err(LoadError::UnsupportedArchitecture(header.architecture))
        } else if !object_readable(data, header) {
            Err(LoadError::Inconsistent)
        } else {
            Ok(())
        },
    }
}

/// Loads the section at a position.
fn load_section(data: &[u8], position: usize) -> (section: Option<InputSection>)
    ensures
        section.is_some() == section_readable(data@, position as int),
        section matches Some(loaded) ==> section_loaded(data@, position as int, loaded),
{
    let shape = match read_section_shape(data, position) {
        None => {
            return None;
        },
        Some(shape) => shape,
    };
    if shape.index != position {
        return None;
    }
    let mut relocations: Vec<InputRelocation> = Vec::new();
    while relocations.len() < shape.relocations
        invariant
            relocations@.len() <= shape.relocations,
            section_shape_of(data@, position as int) == Some(shape),
            forall|r: int|
                0 <= r < relocations@.len() ==> relocation_of(data@, position as int, r) == Some(
                    #[trigger] relocations@[r],
                ),
        decreases shape.relocations - relocations@.len(),
    {
        match read_relocation(data, position, relocations.len()) {
            None => {
                return None;
            },
            Some(relocation) => {
                relocations.push(relocation);
            },
        }
    }
    assert forall|r: int| 0 <= r < shape.relocations implies #[trigger] relocation_of(
        data@,
        position as int,
        r,
    ) is Some by {
        assert(relocation_of(data@, position as int, r) == Some(relocations@[r]));
    }
    let segment = match read_section_segment(data, position) {
        None => None,
        Some(None) => Some(String::new()),
        Some(Some(name)) => Some(name),
    };
    Some(
        InputSection {
            name: read_section_name(data, position),
            segment,
            kind: shape.kind,
            data: read_section_data(data, position),
            size: shape.size,
            align: shape.align,
            address: shape.address,
            flags: shape.flags,
            relocations,
        },
    )
}

/// Loads the symbol at a position.
fn load_symbol(data: &[u8], position: usize) -> (symbol: Option<InputSymbol>)
    ensures
        symbol.is_some() == symbol_readable(data@, position as int),
        symbol matches Some(loaded) ==> symbol_loaded(data@, position as int, loaded),
{
    let shape = match read_symbol_shape(data, position) {
        None => {
            return None;
        },
        Some(shape) => shape,
    };
    if shape.index != position {
        return None;
    }
    Some(
        InputSymbol {
            name: read_symbol_name(data, position),
            kind: shape.kind,
            scope: shape.scope,
            weak: shape.weak,
            section: read_symbol_section(data, position),
            address: shape.address,
            size: shape.size,
            flags: shape.flags,
        },
    )
}

/// Loads a relocatable object from the bytes of its file.
///
/// Only an ELF file for 64-bit RISC-V is loaded. The loaded object holds
/// what the reader says of the file: its flags, the number of its COMDAT
/// groups, and its sections and symbols in the order in which the reader
/// walks them, each with all that the link reads of it.
pub fn load_object(data: &[u8]) -> (result: Result<InputObject, LoadError>)
    ensures
        match load_outcome(data@) {
            Ok(()) => result matches Ok(object) && object_loaded(data@, object),
            Err(e) => result matches Err(error) && error == e,
        },
{
    let header = match read_header(data) {
        None => {
            return Err(LoadError::Unparsed);
        },
        Some(header) => header,
    };
    if !is_elf(header.format) {
        return Err(LoadError::UnsupportedFormat(header.format));
    }
    if !is_riscv64(header.architecture) {
        return Err(LoadError::UnsupportedArchitecture(header.architecture));
    }
    let mut sections: Vec<InputSection> = Vec::new();
    while sections.len() < header.sections
        invariant
            sections@.len() <= header.sections,
            header_of(data@) == Some(header),
            format_is_elf(header.format),
            architecture_is_riscv64(header.architecture),
            forall|s: int| 0 <= s < sections@.len() ==> #[trigger] section_readable(data@, s),
            forall|s: int|
                0 <= s < sections@.len() ==> section_loaded(data@, s, #[trigger] sections@[s]),
        decreases header.sections - sections@.len(),
    {
        match load_section(data, sections.len()) {
            None => {
                return Err(LoadError::Inconsistent);
            },
            Some(section) => {
                sections.push(section);
            },
        }
    }
    let mut symbols: Vec<InputSymbol> = Vec::new();
    while symbols.len() < header.symbols
        invariant
            symbols@.len() <= header.symbols,
            sections@.len() == header.sections,
            header_of(data@) == Some(header),
            format_is_elf(header.format),
            architecture_is_riscv64(header.architecture),
            forall|s: int| 0 <= s < header.sections ==> #[trigger] section_readable(data@, s),
            forall|s: int| 0 <= s < symbols@.len() ==> #[trigger] symbol_readable(data@, s),
            forall|s: int|
                0 <= s < symbols@.len() ==> symbol_loaded(data@, s, #[trigger] symbols@[s]),
        decreases header.symbols - symbols@.len(),
    {
        match load_symbol(data, symbols.len()) {
            None => {
                return Err(LoadError::Inconsistent);
            },
            Some(symbol) => {
                symbols.push(symbol);
            },
        }
    }
    Ok(InputObject { flags: header.flags, comdats: header.comdats, sections, symbols })
}

} // verus!
