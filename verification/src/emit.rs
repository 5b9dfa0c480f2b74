//! Serializing an output image through the ELF writer.

use vstd::prelude::*;
use vstd::string::*;
use vstd::utf8::encode_utf8;
use object::write::{Object, SectionId, SymbolId};
use crate::flags::FileFlags;
use crate::image::{
    ContentsView, Image, ImageView, OutputRelocation, OutputSection, OutputSectionView,
    OutputSymbol, OutputSymbolSection, OutputSymbolView, SectionContents, SymbolRef,
};
use crate::kinds::{
    class_of_symbol_kind, is_bss, is_unknown_scope, kind_is_bss, scope_is_unknown, symbol_class,
    SymbolClass,
};
use crate::writer::{
    attribution, contents, elf_add_bss_section, elf_add_data_section, elf_add_relocation,
    elf_add_symbol, elf_bytes, elf_flags, elf_new, elf_section_symbol, elf_set_flags, elf_write,
    is_alignment, is_name, referred_section, relocation_added, section_added, section_position,
    section_symbol_of, symbol_added, symbol_position, writable, RelocationParts, SymbolParts,
    Written, WrittenSection, WrittenSymbol,
};

verus! {

/// Why an image cannot be serialized.
#[derive(Clone, Copy, Debug, PartialEq, Eq, Structural)]
pub enum EmitError {
    /// The name of a section holds a zero byte.
    SectionName { section: usize },
    /// The alignment of a section is no power of two.
    SectionAlignment { section: usize },
    /// A section of a kind without contents holds bytes, or a section of
    /// a kind with contents holds none.
    SectionContents { section: usize },
    /// A symbol is attributed to a section that the image does not hold.
    SymbolHome { symbol: usize },
    /// The name of a symbol holds a zero byte.
    SymbolName { symbol: usize },
    /// A section symbol is attributed to no section, or a symbol that is
    /// no file symbol has no attribution at all.
    SymbolSection { symbol: usize },
    /// A symbol that is not undefined has no scope.
    SymbolScope { symbol: usize },
    /// A relocation patches a section, or refers to a symbol, that the
    /// image does not hold.
    RelocationTarget { relocation: usize },
    /// The addend of a relocation against a symbol of a section cannot
    /// take the value of the symbol.
    RelocationAddend { relocation: usize },
    /// The file flags are not ELF flags.
    FileFlags,
    /// The writer refuses the image.
    Refused,
}

/// What is wrong with a section, if anything.
pub open spec fn section_fault(section: OutputSectionView, index: usize) -> Option<EmitError> {
    if !is_name(encode_utf8(section.name)) {
        Some(EmitError::SectionName { section: index })
    } else if !is_alignment(section.align) {
        Some(EmitError::SectionAlignment { section: index })
    } else if (section.contents is Uninitialized) != kind_is_bss(section.kind) {
        Some(EmitError::SectionContents { section: index })
    } else {
        None
    }
}

/// What is wrong with a symbol of an image with `sections` sections, if
/// anything.
pub open spec fn symbol_fault(symbol: OutputSymbolView, index: usize, sections: nat) -> Option<
    EmitError,
> {
    if symbol.section matches OutputSymbolSection::Section(id) && id >= sections {
        Some(EmitError::SymbolHome { symbol: index })
    } else if !is_name(symbol.name) {
        Some(EmitError::SymbolName { symbol: index })
    } else if class_of_symbol_kind(symbol.kind) == SymbolClass::Section && !(symbol.section is Section) {
        Some(EmitError::SymbolSection { symbol: index })
    } else if symbol.section is NoSection && class_of_symbol_kind(symbol.kind)
        != SymbolClass::File {
        Some(EmitError::SymbolSection { symbol: index })
    } else if !(symbol.section is Undefined) && scope_is_unknown(symbol.scope) {
        Some(EmitError::SymbolScope { symbol: index })
    } else {
        None
    }
}

/// Whether the value of a symbol can be added to an addend.
pub open spec fn addend_takes(addend: i64, value: u64) -> bool {
    value <= i64::MAX && i64::MIN <= addend + value <= i64::MAX
}

/// Whether the writer may add the value of a symbol to the addend of a
/// relocation against it: it may for a symbol of a section that is no
/// section symbol.
pub open spec fn may_be_referred(symbol: OutputSymbolView) -> bool {
    symbol.section is Section && class_of_symbol_kind(symbol.kind) != SymbolClass::Section
}

/// What is wrong with a relocation of an image, if anything.
pub open spec fn relocation_fault(image: ImageView, relocation: OutputRelocation, index: usize) -> Option<
    EmitError,
> {
    if relocation.section >= image.sections.len() || (match relocation.symbol {
        SymbolRef::Symbol(id) => id >= image.symbols.len(),
        SymbolRef::SectionSymbol(id) => id >= image.sections.len(),
    }) {
        Some(EmitError::RelocationTarget { relocation: index })
    } else if relocation.symbol matches SymbolRef::Symbol(id) && may_be_referred(
        image.symbols[id as int],
    ) && !addend_takes(relocation.addend, image.symbols[id as int].value) {
        Some(EmitError::RelocationAddend { relocation: index })
    } else {
        None
    }
}

/// The first fault among the sections from `from` on.
pub open spec fn sections_fault(image: ImageView, from: int) -> Option<EmitError>
    decreases image.sections.len() - from,
{
    if from < 0 || from >= image.sections.len() {
        None
    } else {
        match section_fault(image.sections[from], from as usize) {
            Some(e) => Some(e),
            None => sections_fault(image, from + 1),
        }
    }
}

/// The first fault among the symbols from `from` on.
pub open spec fn symbols_fault(image: ImageView, from: int) -> Option<EmitError>
    decreases image.symbols.len() - from,
{
    if from < 0 || from >= image.symbols.len() {
        None
    } else {
        match symbol_fault(image.symbols[from], from as usize, image.sections.len()) {
            Some(e) => Some(e),
            None => symbols_fault(image, from + 1),
        }
    }
}

/// The first fault among the relocations from `from` on.
pub open spec fn relocations_fault(image: ImageView, from: int) -> Option<EmitError>
    decreases image.relocations.len() - from,
{
    if from < 0 || from >= image.relocations.len() {
        None
    } else {
        match relocation_fault(image, image.relocations[from], from as usize) {
            Some(e) => Some(e),
            None => relocations_fault(image, from + 1),
        }
    }
}

/// The first fault of an image: of its sections, then of its symbols,
/// then of its relocations, then of its file flags.
pub open spec fn image_fault(image: ImageView) -> Option<EmitError> {
    match sections_fault(image, 0) {
        Some(e) => Some(e),
        None => match symbols_fault(image, 0) {
            Some(e) => Some(e),
            None => match relocations_fault(image, 0) {
                Some(e) => Some(e),
                None => if image.flags is Other {
                    Some(EmitError::FileFlags)
                } else {
                    None
                },
            },
        },
    }
}

/// The section that the writer is handed for a section of the image: its
/// names as bytes, its contents or the size that it reserves, and as yet
/// no relocations and no symbol.
pub open spec fn section_handed(section: OutputSectionView) -> WrittenSection {
    WrittenSection {
        segment: encode_utf8(section.segment),
        name: encode_utf8(section.name),
        kind: section.kind,
        size: match section.contents {
            ContentsView::Data(data) => data.len() as u64,
            ContentsView::Uninitialized(size) => size,
        },
        align: section.align,
        data: match section.contents {
            ContentsView::Data(data) => data,
            ContentsView::Uninitialized(_) => Seq::empty(),
        },
        flags: section.flags,
        symbol: None,
        relocations: Seq::empty(),
    }
}

/// What the writer holds once it is handed the first `upto` sections of
/// an image.
pub open spec fn sections_handed(image: ImageView, upto: int) -> Written {
    Written {
        sections: Seq::new(upto as nat, |i: int| section_handed(image.sections[i])),
        symbols: Seq::empty(),
        flags: FileFlags::Unset,
    }
}

/// What the writer is told of a symbol of the image besides its name.
pub open spec fn symbol_parts(symbol: OutputSymbolView) -> SymbolParts {
    SymbolParts {
        value: symbol.value,
        size: symbol.size,
        kind: symbol.kind,
        scope: symbol.scope,
        weak: symbol.weak,
        section: symbol.section,
        flags: symbol.flags,
    }
}

/// The position of the section that a symbol of the image is attributed
/// to, where it is attributed to one.
pub open spec fn symbol_home(symbol: OutputSymbolView) -> Option<usize> {
    match symbol.section {
        OutputSymbolSection::Section(id) => Some(id),
        _ => None,
    }
}

/// What a writer holds, with the positions that it has given to the
/// symbols of the image.
pub struct Handed {
    pub written: Written,
    pub positions: Seq<int>,
}

/// What the writer holds once it is handed the sections and the first
/// `upto` symbols of an image, in order.
pub open spec fn symbols_handed(image: ImageView, upto: int) -> Handed
    decreases upto,
{
    if upto <= 0 {
        Handed {
            written: sections_handed(image, image.sections.len() as int),
            positions: Seq::empty(),
        }
    } else {
        let before = symbols_handed(image, upto - 1);
        let symbol = image.symbols[upto - 1];
        let (written, position) = symbol_added(
            before.written,
            symbol.name,
            symbol_parts(symbol),
            symbol_home(symbol),
        );
        Handed { written, positions: before.positions.push(position) }
    }
}

/// What the writer is told of a relocation of the image besides its
/// section and symbol.
pub open spec fn relocation_parts(relocation: OutputRelocation) -> RelocationParts {
    RelocationParts {
        offset: relocation.offset,
        size: relocation.size,
        kind: relocation.kind,
        encoding: relocation.encoding,
        addend: relocation.addend,
    }
}

/// What a writer holds once it is handed a relocation of the image, and
/// before that is asked for the section symbol that the relocation
/// refers to, where it refers to one. `positions` are the positions of
/// the symbols of the image in the writer.
pub open spec fn relocation_handed(
    before: Written,
    positions: Seq<int>,
    relocation: OutputRelocation,
) -> Written {
    let (ready, symbol) = match relocation.symbol {
        SymbolRef::Symbol(id) => (before, positions[id as int]),
        SymbolRef::SectionSymbol(id) => section_symbol_of(before, id as int),
    };
    relocation_added(
        ready,
        relocation.section as int,
        symbol,
        relocation_parts(relocation),
        referred_section(ready, symbol, relocation_parts(relocation)),
    )
}

/// What the writer holds once it is handed the sections, the symbols and
/// the first `upto` relocations of an image, in order.
pub open spec fn relocations_handed(image: ImageView, upto: int) -> Written
    decreases upto,
{
    if upto <= 0 {
        symbols_handed(image, image.symbols.len() as int).written
    } else {
        relocation_handed(
            relocations_handed(image, upto - 1),
            symbols_handed(image, image.symbols.len() as int).positions,
            image.relocations[upto - 1],
        )
    }
}

/// What the writer holds once it is handed an image: its sections, its
/// symbols and its relocations, each in order, and its ELF flags where
/// it has some.
pub open spec fn handed(image: ImageView) -> Written {
    let written = relocations_handed(image, image.relocations.len() as int);
    match image.flags {
        FileFlags::Elf { e_flags } => Written { flags: FileFlags::Elf { e_flags }, ..written },
        _ => written,
    }
}

/// The file that the writer makes of an image, or nothing where it
/// cannot express it.
pub open spec fn emitted(image: ImageView) -> Option<Seq<u8>> {
    elf_bytes(handed(image).sections, handed(image).symbols, handed(image).flags)
}

/// What emitting an image yields: its first fault where it has one, or
/// else the file that the writer makes of it, unless the writer refuses
/// it.
pub open spec fn emit_outcome(image: ImageView) -> Result<Seq<u8>, EmitError> {
    match image_fault(image) {
        Some(e) => Err(e),
        None => match emitted(image) {
            Some(bytes) => Ok(bytes),
            None => Err(EmitError::Refused),
        },
    }
}

/// Whether the sections of a writer know their symbols: there are
/// `sections` sections, the symbol of each section, where it has one, is
/// a section symbol of the writer, and no file flags are set.
pub open spec fn knows_section_symbols(written: Written, sections: nat) -> bool {
    &&& written.sections.len() == sections
    &&& written.flags == FileFlags::Unset
    &&& forall|s: int|
        0 <= s < sections ==> ((#[trigger] written.sections[s]).symbol matches Some(position)
            ==> 0 <= position < written.symbols.len() && written.symbols[position] is OfSection)
}

/// Whether a writer has grown out of another: it holds the same number
/// of sections, every symbol that was handed in as it was, and a section
/// symbol wherever there was one.
pub open spec fn grown_from(earlier: Written, later: Written) -> bool {
    &&& later.sections.len() == earlier.sections.len()
    &&& later.symbols.len() >= earlier.symbols.len()
    &&& forall|p: int|
        0 <= p < earlier.symbols.len() ==> if (#[trigger] earlier.symbols[p]) is Named {
            later.symbols[p] == earlier.symbols[p]
        } else {
            later.symbols[p] is OfSection
        }
}

/// The symbol that the writer holds for a symbol of the image that is no
/// section symbol.
pub open spec fn symbol_handed(symbol: OutputSymbolView) -> WrittenSymbol {
    WrittenSymbol::Named {
        name: symbol.name,
        value: symbol.value,
        size: symbol.size,
        kind: symbol.kind,
        scope: symbol.scope,
        weak: symbol.weak,
        section: attribution(symbol.section, symbol_home(symbol)),
        flags: symbol.flags,
    }
}

/// Whether a writer holds the first `upto` symbols of an image at the
/// given positions: each as it was handed in, or as a section symbol
/// where it is one.
pub open spec fn holds_symbols(
    written: Written,
    positions: Seq<int>,
    image: ImageView,
    upto: int,
) -> bool {
    &&& positions.len() == upto
    &&& forall|k: int|
        0 <= k < upto ==> 0 <= (#[trigger] positions[k]) < written.symbols.len() && (
        if class_of_symbol_kind(image.symbols[k].kind) == SymbolClass::Section {
            written.symbols[positions[k]] is OfSection
        } else {
            written.symbols[positions[k]] == symbol_handed(image.symbols[k])
        })
}

proof fn lemma_section_symbol_of(before: Written, section: int, sections: nat)
    requires
        knows_section_symbols(before, sections),
        0 <= section < sections,
    ensures
        ({
            let (after, position) = section_symbol_of(before, section);
            &&& knows_section_symbols(after, sections)
            &&& grown_from(before, after)
            &&& 0 <= position < after.symbols.len()
            &&& after.symbols[position] is OfSection
        }),
{
    let (after, position) = section_symbol_of(before, section);
    if before.sections[section].symbol is None {
        assert forall|s: int| 0 <= s < sections implies ((#[trigger] after.sections[s]).symbol matches Some(
            p,
        ) ==> 0 <= p < after.symbols.len() && after.symbols[p] is OfSection) by {
            if s != section {
                assert(after.sections[s] == before.sections[s]);
            }
        }
    }
}

proof fn lemma_symbol_added(
    before: Written,
    symbol: OutputSymbolView,
    sections: nat,
)
    requires
        knows_section_symbols(before, sections),
        symbol.section matches OutputSymbolSection::Section(id) ==> id < sections,
        class_of_symbol_kind(symbol.kind) == SymbolClass::Section ==> symbol.section is Section,
    ensures
        ({
            let (after, position) = symbol_added(
                before,
                symbol.name,
                symbol_parts(symbol),
                symbol_home(symbol),
            );
            &&& knows_section_symbols(after, sections)
            &&& grown_from(before, after)
            &&& 0 <= position < after.symbols.len()
            &&& if class_of_symbol_kind(symbol.kind) == SymbolClass::Section {
                after.symbols[position] is OfSection
            } else {
                after.symbols[position] == symbol_handed(symbol)
            }
        }),
{
    let (after, position) = symbol_added(
        before,
        symbol.name,
        symbol_parts(symbol),
        symbol_home(symbol),
    );
    if class_of_symbol_kind(symbol.kind) == SymbolClass::Section {
        let home = symbol_home(symbol)->0 as int;
        lemma_section_symbol_of(before, home, sections);
        let (next, p) = section_symbol_of(before, home);
        assert(after.sections == next.sections);
        assert forall|s: int| 0 <= s < sections implies ((#[trigger] after.sections[s]).symbol matches Some(
            q,
        ) ==> 0 <= q < after.symbols.len() && after.symbols[q] is OfSection) by {
            if after.sections[s].symbol is Some {
                assert(next.symbols[after.sections[s].symbol->0] is OfSection);
            }
        }
    } else {
        assert forall|s: int| 0 <= s < sections implies ((#[trigger] after.sections[s]).symbol matches Some(
            q,
        ) ==> 0 <= q < after.symbols.len() && after.symbols[q] is OfSection) by {
            if before.sections[s].symbol is Some {
                let q = before.sections[s].symbol->0;
                assert(after.symbols[q] == before.symbols[q]);
            }
        }
    }
}

proof fn lemma_relocation_handed(
    before: Written,
    positions: Seq<int>,
    image: ImageView,
    relocation: OutputRelocation,
    index: usize,
)
    requires
        knows_section_symbols(before, image.sections.len()),
        holds_symbols(before, positions, image, image.symbols.len() as int),
        symbols_fault(image, 0) is None,
        relocation_fault(image, relocation, index) is None,
    ensures
        knows_section_symbols(
            relocation_handed(before, positions, relocation),
            image.sections.len(),
        ),
        grown_from(before, relocation_handed(before, positions, relocation)),
{
    let sections = image.sections.len();
    let (ready, symbol) = match relocation.symbol {
        SymbolRef::Symbol(id) => (before, positions[id as int]),
        SymbolRef::SectionSymbol(id) => section_symbol_of(before, id as int),
    };
    match relocation.symbol {
        SymbolRef::Symbol(id) => {},
        SymbolRef::SectionSymbol(id) => {
            lemma_section_symbol_of(before, id as int, sections);
        },
    }
    let parts = relocation_parts(relocation);
    let after = relocation_handed(before, positions, relocation);
    let next = match referred_section(ready, symbol, parts) {
        Some(home) => section_symbol_of(ready, home as int).0,
        None => ready,
    };
    match referred_section(ready, symbol, parts) {
        Some(home) => {
            // The symbol is one of the image, handed in as attributed to a
            // section of the image.
            match relocation.symbol {
                SymbolRef::Symbol(id) => {
                    assert(ready.symbols[symbol] == symbol_handed(image.symbols[id as int]));
                    lemma_no_symbol_home(image, id as int);
                },
                SymbolRef::SectionSymbol(_) => {},
            }
            lemma_section_symbol_of(ready, home as int, sections);
        },
        None => {},
    }
    assert(after.symbols == next.symbols);
    assert forall|s: int| 0 <= s < sections implies ((#[trigger] after.sections[s]).symbol matches Some(
        q,
    ) ==> 0 <= q < after.symbols.len() && after.symbols[q] is OfSection) by {
        assert(after.sections[s].symbol == next.sections[s].symbol);
    }
    assert forall|p: int| 0 <= p < before.symbols.len() implies if (
    #[trigger] before.symbols[p]) is Named {
        after.symbols[p] == before.symbols[p]
    } else {
        after.symbols[p] is OfSection
    } by {
        if before.symbols[p] is Named {
            assert(ready.symbols[p] == before.symbols[p]);
        } else {
            assert(ready.symbols[p] is OfSection);
        }
    }
}

/// A symbol of an image without symbol faults that is attributed to a
/// section is attributed to a section of the image.
proof fn lemma_no_symbol_home(image: ImageView, index: int)
    requires
        0 <= index < image.symbols.len(),
        symbols_fault(image, 0) is None,
    ensures
        image.symbols[index].section matches OutputSymbolSection::Section(id) ==> id
            < image.sections.len(),
{
    lemma_no_symbol_fault(image, 0, index);
}

/// Whether an alignment is a power of two.
pub fn alignment_is_valid(align: u64) -> (valid: bool)
    ensures
        valid == is_alignment(align),
{
    align != 0 && align & (align - 1) == 0
}

/// Whether bytes hold no zero byte.
pub fn name_is_valid(name: &Vec<u8>) -> (valid: bool)
    ensures
        valid == is_name(name@),
{
    let mut i: usize = 0;
    while i < name.len()
        invariant
            i <= name@.len(),
            forall|j: int| 0 <= j < i ==> name@[j] != 0,
        decreases name@.len() - i,
    {
        if name[i] == 0 {
            return false;
        }
        i += 1;
    }
    true
}

/// Looks for what is wrong with a section.
fn check_section(section: &OutputSection, index: usize) -> (fault: Option<EmitError>)
    ensures
        fault == section_fault(section@, index),
{
    let name = section.name.as_str().as_bytes_vec();
    let uninitialized = match &section.contents {
        SectionContents::Data(_) => false,
        SectionContents::Uninitialized(_) => true,
    };
    if !name_is_valid(&name) {
        Some(EmitError::SectionName { section: index })
    } else if !alignment_is_valid(section.align) {
        Some(EmitError::SectionAlignment { section: index })
    } else if uninitialized != is_bss(section.kind) {
        Some(EmitError::SectionContents { section: index })
    } else {
        None
    }
}

/// Looks for what is wrong with a symbol.
fn check_symbol(symbol: &OutputSymbol, index: usize, sections: usize) -> (fault: Option<EmitError>)
    ensures
        fault == symbol_fault(symbol@, index, sections as nat),
{
    let attributed = match symbol.section {
        OutputSymbolSection::Section(id) => {
            if id >= sections {
                return Some(EmitError::SymbolHome { symbol: index });
            }
            true
        },
        _ => false,
    };
    let unattributed = match symbol.section {
        OutputSymbolSection::NoSection => true,
        _ => false,
    };
    let undefined = match symbol.section {
        OutputSymbolSection::Undefined => true,
        _ => false,
    };
    let class = symbol_class(symbol.kind);
    if !name_is_valid(&symbol.name) {
        Some(EmitError::SymbolName { symbol: index })
    } else if class == SymbolClass::Section && !attributed {
        Some(EmitError::SymbolSection { symbol: index })
    } else if unattributed && class != SymbolClass::File {
        Some(EmitError::SymbolSection { symbol: index })
    } else if !undefined && is_unknown_scope(symbol.scope) {
        Some(EmitError::SymbolScope { symbol: index })
    } else {
        None
    }
}

/// Whether the value of a symbol can be added to an addend.
fn addend_can_take(addend: i64, value: u64) -> (takes: bool)
    ensures
        takes == addend_takes(addend, value),
{
    if value > 0x7fff_ffff_ffff_ffff {
        false
    } else {
        let room: i64 = 0x7fff_ffff_ffff_ffff - (value as i64);
        addend <= room
    }
}

/// Looks for what is wrong with a relocation.
fn check_relocation(image: &Image, relocation: &OutputRelocation, index: usize) -> (fault: Option<
    EmitError,
>)
    ensures
        fault == relocation_fault(image@, *relocation, index),
{
    let sections = image.sections.len();
    let symbols = image.symbols.len();
    if relocation.section >= sections {
        return Some(EmitError::RelocationTarget { relocation: index });
    }
    match relocation.symbol {
        SymbolRef::SectionSymbol(id) => {
            if id >= sections {
                Some(EmitError::RelocationTarget { relocation: index })
            } else {
                None
            }
        },
        SymbolRef::Symbol(id) => {
            if id >= symbols {
                return Some(EmitError::RelocationTarget { relocation: index });
            }
            let symbol = &image.symbols[id];
            assert(image@.symbols[id as int] == symbol@);
            let in_section = match symbol.section {
                OutputSymbolSection::Section(_) => true,
                _ => false,
            };
            if in_section && symbol_class(symbol.kind) != SymbolClass::Section
                && !addend_can_take(relocation.addend, symbol.value) {
                Some(EmitError::RelocationAddend { relocation: index })
            } else {
                None
            }
        },
    }
}

/// Looks for the first fault of an image.
pub fn validate(image: &Image) -> (fault: Option<EmitError>)
    ensures
        fault == image_fault(image@),
{
    let mut index: usize = 0;
    while index < image.sections.len()
        invariant
            index <= image.sections@.len(),
            sections_fault(image@, index as int) == sections_fault(image@, 0),
        decreases image.sections@.len() - index,
    {
        match check_section(&image.sections[index], index) {
            Some(e) => {
                return Some(e);
            },
            None => {},
        }
        index += 1;
    }
    index = 0;
    while index < image.symbols.len()
        invariant
            index <= image.symbols@.len(),
            sections_fault(image@, 0) is None,
            symbols_fault(image@, index as int) == symbols_fault(image@, 0),
        decreases image.symbols@.len() - index,
    {
        match check_symbol(&image.symbols[index], index, image.sections.len()) {
            Some(e) => {
                return Some(e);
            },
            None => {},
        }
        index += 1;
    }
    index = 0;
    while index < image.relocations.len()
        invariant
            index <= image.relocations@.len(),
            sections_fault(image@, 0) is None,
            symbols_fault(image@, 0) is None,
            relocations_fault(image@, index as int) == relocations_fault(image@, 0),
        decreases image.relocations@.len() - index,
    {
        match check_relocation(image, &image.relocations[index], index) {
            Some(e) => {
                return Some(e);
            },
            None => {},
        }
        index += 1;
    }
    match image.flags {
        FileFlags::Other => Some(EmitError::FileFlags),
        _ => None,
    }
}

/// A fault that lies at or after `from` is the first fault only if no
/// section before it has one; an image without a first fault has none.
proof fn lemma_no_section_fault(image: ImageView, from: int, index: int)
    requires
        0 <= from <= index < image.sections.len(),
        sections_fault(image, from) is None,
    ensures
        section_fault(image.sections[index], index as usize) is None,
    decreases index - from,
{
    if from < index {
        lemma_no_section_fault(image, from + 1, index);
    }
}

proof fn lemma_no_symbol_fault(image: ImageView, from: int, index: int)
    requires
        0 <= from <= index < image.symbols.len(),
        symbols_fault(image, from) is None,
    ensures
        symbol_fault(image.symbols[index], index as usize, image.sections.len()) is None,
    decreases index - from,
{
    if from < index {
        lemma_no_symbol_fault(image, from + 1, index);
    }
}

proof fn lemma_no_relocation_fault(image: ImageView, from: int, index: int)
    requires
        0 <= from <= index < image.relocations.len(),
        relocations_fault(image, from) is None,
    ensures
        relocation_fault(image, image.relocations[index], index as usize) is None,
    decreases index - from,
{
    if from < index {
        lemma_no_relocation_fault(image, from + 1, index);
    }
}

/// Hands the sections of an image to the writer, in order. The handles
/// that come back stand for the positions of the sections in the image.
fn write_sections(elf: &mut Object<'static>, image: &Image) -> (ids: Vec<SectionId>)
    requires
        writable(*old(elf)),
        contents(*old(elf)) == sections_handed(image@, 0),
        sections_fault(image@, 0) is None,
    ensures
        writable(*final(elf)),
        contents(*final(elf)) == sections_handed(image@, image@.sections.len() as int),
        ids@.len() == image@.sections.len(),
        forall|i: int| 0 <= i < ids@.len() ==> section_position(#[trigger] ids@[i]) == i,
{
    let mut ids: Vec<SectionId> = Vec::new();
    let mut index: usize = 0;
    while index < image.sections.len()
        invariant
            index <= image.sections@.len(),
            sections_fault(image@, 0) is None,
            writable(*elf),
            contents(*elf) == sections_handed(image@, index as int),
            ids@.len() == index,
            forall|i: int| 0 <= i < ids@.len() ==> section_position(#[trigger] ids@[i]) == i,
        decreases image.sections@.len() - index,
    {
        let section = &image.sections[index];
        proof {
            lemma_no_section_fault(image@, 0, index as int);
            assert(image@.sections[index as int] == section@);
        }
        let ghost before = contents(*elf);
        let segment = section.segment.as_str().as_bytes_vec();
        let name = section.name.as_str().as_bytes_vec();
        let id = match &section.contents {
            SectionContents::Data(data) => elf_add_data_section(
                elf,
                segment,
                name,
                section.kind,
                data.clone(),
                section.align,
                section.flags,
            ),
            SectionContents::Uninitialized(size) => elf_add_bss_section(
                elf,
                segment,
                name,
                section.kind,
                *size,
                section.align,
                section.flags,
            ),
        };
        ids.push(id);
        proof {
            assert(contents(*elf) == section_added(before, section_handed(section@)));
            assert(contents(*elf).sections =~= sections_handed(image@, index + 1).sections);
        }
        index += 1;
    }
    ids
}

/// Hands the symbols of an image to the writer, in order. The handles
/// that come back stand for the positions that the writer gives to the
/// symbols.
fn write_symbols(elf: &mut Object<'static>, image: &Image, sections: &Vec<SectionId>) -> (ids: Vec<
    SymbolId,
>)
    requires
        writable(*old(elf)),
        contents(*old(elf)) == symbols_handed(image@, 0).written,
        symbols_fault(image@, 0) is None,
        sections@.len() == image@.sections.len(),
        forall|i: int| 0 <= i < sections@.len() ==> section_position(#[trigger] sections@[i]) == i,
    ensures
        writable(*final(elf)),
        contents(*final(elf)) == symbols_handed(image@, image@.symbols.len() as int).written,
        knows_section_symbols(contents(*final(elf)), image@.sections.len()),
        holds_symbols(
            contents(*final(elf)),
            symbols_handed(image@, image@.symbols.len() as int).positions,
            image@,
            image@.symbols.len() as int,
        ),
        ids@.len() == image@.symbols.len(),
        forall|k: int|
            0 <= k < ids@.len() ==> symbol_position(#[trigger] ids@[k]) == symbols_handed(
                image@,
                image@.symbols.len() as int,
            ).positions[k],
{
    let mut ids: Vec<SymbolId> = Vec::new();
    let mut index: usize = 0;
    while index < image.symbols.len()
        invariant
            index <= image.symbols@.len(),
            symbols_fault(image@, 0) is None,
            sections@.len() == image@.sections.len(),
            forall|i: int|
                0 <= i < sections@.len() ==> section_position(#[trigger] sections@[i]) == i,
            writable(*elf),
            contents(*elf) == symbols_handed(image@, index as int).written,
            knows_section_symbols(contents(*elf), image@.sections.len()),
            holds_symbols(
                contents(*elf),
                symbols_handed(image@, index as int).positions,
                image@,
                index as int,
            ),
            ids@.len() == index,
            forall|k: int|
                0 <= k < ids@.len() ==> symbol_position(#[trigger] ids@[k]) == symbols_handed(
                    image@,
                    index as int,
                ).positions[k],
        decreases image.symbols@.len() - index,
    {
        let symbol = &image.symbols[index];
        let ghost before = symbols_handed(image@, index as int);
        proof {
            lemma_no_symbol_fault(image@, 0, index as int);
            assert(image@.symbols[index as int] == symbol@);
            lemma_symbol_added(before.written, symbol@, image@.sections.len());
        }
        let home = match symbol.section {
            OutputSymbolSection::Section(id) => Some(sections[id]),
            _ => None,
        };
        let parts = SymbolParts {
            value: symbol.value,
            size: symbol.size,
            kind: symbol.kind,
            scope: symbol.scope,
            weak: symbol.weak,
            section: symbol.section,
            flags: symbol.flags,
        };
        let id = elf_add_symbol(elf, symbol.name.clone(), parts, home);
        ids.push(id);
        proof {
            let after = symbols_handed(image@, index + 1);
            assert(parts == symbol_parts(symbol@));
            assert(after.positions == before.positions.push(symbol_position(id) as int));
            assert forall|k: int| 0 <= k < index + 1 implies 0 <= (#[trigger] after.positions[k])
                < after.written.symbols.len() && (if class_of_symbol_kind(image@.symbols[k].kind)
                == SymbolClass::Section {
                after.written.symbols[after.positions[k]] is OfSection
            } else {
                after.written.symbols[after.positions[k]] == symbol_handed(image@.symbols[k])
            }) by {
                if k < index {
                    assert(after.positions[k] == before.positions[k]);
                    assert(0 <= before.positions[k] < before.written.symbols.len());
                }
            }
        }
        index += 1;
    }
    ids
}

/// Hands the relocations of an image to the writer, in order, each after
/// the section symbol that it refers to is asked for, where it refers to
/// one. Says whether the writer took them all, as it does.
fn write_relocations(
    elf: &mut Object<'static>,
    image: &Image,
    sections: &Vec<SectionId>,
    symbols: &Vec<SymbolId>,
) -> (taken: bool)
    requires
        writable(*old(elf)),
        contents(*old(elf)) == relocations_handed(image@, 0),
        knows_section_symbols(contents(*old(elf)), image@.sections.len()),
        holds_symbols(
            contents(*old(elf)),
            symbols_handed(image@, image@.symbols.len() as int).positions,
            image@,
            image@.symbols.len() as int,
        ),
        symbols_fault(image@, 0) is None,
        relocations_fault(image@, 0) is None,
        sections@.len() == image@.sections.len(),
        symbols@.len() == image@.symbols.len(),
        forall|i: int| 0 <= i < sections@.len() ==> section_position(#[trigger] sections@[i]) == i,
        forall|k: int|
            0 <= k < symbols@.len() ==> symbol_position(#[trigger] symbols@[k]) == symbols_handed(
                image@,
                image@.symbols.len() as int,
            ).positions[k],
    ensures
        taken,
        writable(*final(elf)),
        contents(*final(elf)) == relocations_handed(image@, image@.relocations.len() as int),
        elf_flags(*final(elf)) == FileFlags::Unset,
{
    let ghost positions = symbols_handed(image@, image@.symbols.len() as int).positions;
    let mut index: usize = 0;
    while index < image.relocations.len()
        invariant
            index <= image.relocations@.len(),
            symbols_fault(image@, 0) is None,
            relocations_fault(image@, 0) is None,
            positions == symbols_handed(image@, image@.symbols.len() as int).positions,
            sections@.len() == image@.sections.len(),
            symbols@.len() == image@.symbols.len(),
            forall|i: int|
                0 <= i < sections@.len() ==> section_position(#[trigger] sections@[i]) == i,
            forall|k: int|
                0 <= k < symbols@.len() ==> symbol_position(#[trigger] symbols@[k])
                    == positions[k],
            writable(*elf),
            contents(*elf) == relocations_handed(image@, index as int),
            knows_section_symbols(contents(*elf), image@.sections.len()),
            holds_symbols(contents(*elf), positions, image@, image@.symbols.len() as int),
        decreases image.relocations@.len() - index,
    {
        let relocation = &image.relocations[index];
        let ghost before = contents(*elf);
        proof {
            lemma_no_relocation_fault(image@, 0, index as int);
            lemma_relocation_handed(before, positions, image@, *relocation, index);
            match relocation.symbol {
                SymbolRef::Symbol(id) => {
                    lemma_no_symbol_fault(image@, 0, id as int);
                },
                SymbolRef::SectionSymbol(id) => {
                    lemma_section_symbol_of(before, id as int, image@.sections.len());
                },
            }
        }
        let symbol = match relocation.symbol {
            SymbolRef::Symbol(id) => symbols[id],
            SymbolRef::SectionSymbol(id) => elf_section_symbol(elf, sections[id]),
        };
        let parts = RelocationParts {
            offset: relocation.offset,
            size: relocation.size,
            kind: relocation.kind,
            encoding: relocation.encoding,
            addend: relocation.addend,
        };
        assert(parts == relocation_parts(*relocation));
        if !elf_add_relocation(elf, sections[relocation.section], symbol, parts) {
            return false;
        }
        proof {
            let after = relocation_handed(before, positions, *relocation);
            assert(contents(*elf) == after);
            assert forall|k: int| 0 <= k < image@.symbols.len() implies 0 <= (
            #[trigger] positions[k]) < after.symbols.len() && (if class_of_symbol_kind(
                image@.symbols[k].kind,
            ) == SymbolClass::Section {
                after.symbols[positions[k]] is OfSection
            } else {
                after.symbols[positions[k]] == symbol_handed(image@.symbols[k])
            }) by {
                assert(0 <= positions[k] < before.symbols.len());
            }
        }
        index += 1;
    }
    true
}

/// Serializes an image as a little-endian ELF file for 64-bit RISC-V.
///
/// An image with a fault is refused with its first fault. Any other is
/// handed to the writer section by section, symbol by symbol and
/// relocation by relocation, each in order, with its file flags; the
/// result is the file that the writer makes of what it was handed,
/// unless the writer refuses it.
pub fn emit(image: &Image) -> (result: Result<Vec<u8>, EmitError>)
    ensures
        match emit_outcome(image@) {
            Ok(bytes) => result matches Ok(file) && file@ == bytes,
            Err(e) => result == Err::<Vec<u8>, EmitError>(e),
        },
{
    match validate(image) {
        Some(e) => {
            return Err(e);
        },
        None => {},
    }
    let mut elf = elf_new();
    assert(contents(elf).sections =~= sections_handed(image@, 0).sections);
    let sections = write_sections(&mut elf, image);
    assert(knows_section_symbols(contents(elf), image@.sections.len()));
    assert(holds_symbols(contents(elf), symbols_handed(image@, 0).positions, image@, 0));
    let symbols = write_symbols(&mut elf, image, &sections);
    if !write_relocations(&mut elf, image, &sections, &symbols) {
        return Err(EmitError::Refused);
    }
    match image.flags {
        FileFlags::Elf { e_flags } => {
            elf_set_flags(&mut elf, e_flags);
        },
        _ => {},
    }
    assert(contents(elf) == handed(image@));
    match elf_write(&elf) {
        Some(bytes) => Ok(bytes),
        None => Err(EmitError::Refused),
    }
}

} // verus!
