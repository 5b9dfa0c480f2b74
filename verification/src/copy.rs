//! The emitter: copies the kept sections, the symbols that follow them
//! and their relocations into the output image.

use vstd::prelude::*;
use crate::error::LinkError;
use crate::gather::{Collection, ManifestSection};
use crate::image::{
    is_injective, values_below, ContentsView, Image, ImageView,
    OutputMap, OutputRelocation, OutputSection, OutputSectionView, OutputSymbol,
    OutputSymbolFlags, OutputSymbolSection, OutputSymbolView, SectionContents, SymbolRef,
};
use crate::input::{
    InputObject, InputRelocation, InputSection, RelocationTarget, SymbolFlags, SymbolSection,
};
use crate::kinds::{
    class_of_symbol_kind, is_bss, is_metadata, kind_is_bss, kind_is_metadata, symbol_class,
    SymbolClass,
};
use crate::manifest::{Manifest, ManifestEntry};

verus! {

/// The number of sections of each object of the manifest.
pub open spec fn section_counts(entries: Seq<ManifestEntry>) -> Seq<nat> {
    Seq::new(entries.len(), |object: int| entries[object].object.sections@.len())
}

/// The number of symbols of each object of the manifest.
pub open spec fn symbol_counts(entries: Seq<ManifestEntry>) -> Seq<nat> {
    Seq::new(entries.len(), |object: int| entries[object].object.symbols@.len())
}

/// An empty map with room for every section of every object.
fn empty_section_map(manifest: &Manifest) -> (map: OutputMap)
    ensures
        map@ == Map::<(usize, usize), usize>::empty(),
        map.shape() == section_counts(manifest.entries@),
{
    let mut limits: Vec<usize> = Vec::new();
    let mut object: usize = 0;
    while object < manifest.entries.len()
        invariant
            object <= manifest.entries@.len(),
            limits@.len() == object,
            forall|k: int|
                0 <= k < object ==> limits@[k] == manifest.entries@[k].object.sections@.len(),
        decreases manifest.entries@.len() - object,
    {
        limits.push(manifest.entries[object].object.sections.len());
        object += 1;
    }
    let map = OutputMap::with_shape(&limits);
    assert(map.shape() =~= section_counts(manifest.entries@));
    map
}

/// An empty map with room for every symbol of every object.
fn empty_symbol_map(manifest: &Manifest) -> (map: OutputMap)
    ensures
        map@ == Map::<(usize, usize), usize>::empty(),
        map.shape() == symbol_counts(manifest.entries@),
{
    let mut limits: Vec<usize> = Vec::new();
    let mut object: usize = 0;
    while object < manifest.entries.len()
        invariant
            object <= manifest.entries@.len(),
            limits@.len() == object,
            forall|k: int|
                0 <= k < object ==> limits@[k] == manifest.entries@[k].object.symbols@.len(),
        decreases manifest.entries@.len() - object,
    {
        limits.push(manifest.entries[object].object.symbols.len());
        object += 1;
    }
    let map = OutputMap::with_shape(&limits);
    assert(map.shape() =~= symbol_counts(manifest.entries@));
    map
}

/// The sections copied so far and the map from input sections to them.
pub struct SectionsCopied {
    pub sections: Seq<OutputSectionView>,
    pub map: Map<(usize, usize), usize>,
}

/// The output section that an input section is copied to. It has the
/// segment name, name, kind, alignment and flags of the input section. A
/// section of a kind without file contents reserves the size of the
/// input section; any other holds its bytes. A section whose name,
/// contents or segment name cannot be read ends the link.
pub open spec fn copied_section(object: usize, index: usize, section: InputSection) -> Result<
    OutputSectionView,
    LinkError,
> {
    match (section.name, section.data, section.segment) {
        (None, _, _) => Err(LinkError::UnreadableSectionName { object, section: index }),
        (Some(_), None, _) => Err(LinkError::UnreadableSectionData { object, section: index }),
        (Some(_), Some(_), None) => Err(
            LinkError::UnreadableSegmentName { object, section: index },
        ),
        (Some(name), Some(data), Some(segment)) => Ok(
            OutputSectionView {
                segment: segment@,
                name: name@,
                kind: section.kind,
                contents: if kind_is_bss(section.kind) {
                    ContentsView::Uninitialized(section.size)
                } else {
                    ContentsView::Data(data@)
                },
                align: section.align,
                flags: section.flags,
            },
        ),
    }
}

/// Copies one kept section behind the sections copied so far and records
/// its output identifier, which is its position in the image.
pub open spec fn copy_kept_section(
    state: SectionsCopied,
    kept: ManifestSection,
    entries: Seq<ManifestEntry>,
) -> Result<SectionsCopied, LinkError> {
    if kept.object >= entries.len() || kept.index
        >= entries[kept.object as int].object.sections@.len() {
        Err(LinkError::MissingSection { object: kept.object, section: kept.index })
    } else if entries[kept.object as int].object.comdats > 0 {
        Err(
            LinkError::Comdat {
                object: kept.object,
                count: entries[kept.object as int].object.comdats,
            },
        )
    } else {
        match copied_section(
            kept.object,
            kept.index,
            entries[kept.object as int].object.sections@[kept.index as int],
        ) {
            Err(e) => Err(e),
            Ok(section) => Ok(
                SectionsCopied {
                    sections: state.sections.push(section),
                    map: state.map.insert(
                        (kept.object, kept.index),
                        state.sections.len() as usize,
                    ),
                },
            ),
        }
    }
}

/// Copies the kept sections from position `from` on, in kept order.
pub open spec fn copy_sections(
    state: SectionsCopied,
    kept: Seq<ManifestSection>,
    entries: Seq<ManifestEntry>,
    from: int,
) -> Result<SectionsCopied, LinkError>
    decreases kept.len() - from,
{
    if from < 0 || from >= kept.len() {
        Ok(state)
    } else {
        match copy_kept_section(state, kept[from], entries) {
            Err(e) => Err(e),
            Ok(next) => copy_sections(next, kept, entries, from + 1),
        }
    }
}

/// Copies one input section.
fn copy_section(object: usize, index: usize, section: &InputSection) -> (result: Result<
    OutputSection,
    LinkError,
>)
    ensures
        match copied_section(object, index, *section) {
            Ok(copied) => result matches Ok(output) && output@ == copied,
            Err(e) => result matches Err(error) && error == e,
        },
{
    let name = match &section.name {
        None => {
            return Err(LinkError::UnreadableSectionName { object, section: index });
        },
        Some(name) => name.clone(),
    };
    let data = match &section.data {
        None => {
            return Err(LinkError::UnreadableSectionData { object, section: index });
        },
        Some(data) => data,
    };
    let segment = match &section.segment {
        None => {
            return Err(LinkError::UnreadableSegmentName { object, section: index });
        },
        Some(segment) => segment.clone(),
    };
    let contents = if is_bss(section.kind) {
        SectionContents::Uninitialized(section.size)
    } else {
        SectionContents::Data(data.clone())
    };
    Ok(
        OutputSection {
            segment,
            name,
            kind: section.kind,
            contents,
            align: section.align,
            flags: section.flags,
        },
    )
}

/// Copies the kept sections into the image, in kept order, and then sets
/// the file flags of the image to the merged flags of the collection.
/// Returns the map from the kept input sections to their output
/// sections.
pub fn sections(image: &mut Image, collection: &Collection, manifest: &Manifest) -> (result:
    Result<OutputMap, LinkError>)
    requires
        collection.wf(),
    ensures
        match copy_sections(
            SectionsCopied { sections: old(image)@.sections, map: Map::empty() },
            collection.kept(),
            manifest.entries@,
            0,
        ) {
            Ok(done) => result matches Ok(map) && map@ == done.map && map.shape()
                == section_counts(manifest.entries@) && final(image)@ == (ImageView {
                sections: done.sections,
                flags: collection.flags(),
                ..old(image)@
            }),
            Err(e) => result matches Err(error) && error == e,
        },
{
    let mut map = empty_section_map(manifest);
    let ghost start = SectionsCopied { sections: image@.sections, map: Map::empty() };
    let ghost kept = collection.kept();
    let count = collection.len();
    let mut position: usize = 0;
    while position < count
        invariant
            position <= count,
            count == kept.len(),
            kept == collection.kept(),
            collection.wf(),
            start == (SectionsCopied { sections: old(image)@.sections, map: Map::empty() }),
            map.shape() == section_counts(manifest.entries@),
            image@.symbols == old(image)@.symbols,
            image@.relocations == old(image)@.relocations,
            copy_sections(
                SectionsCopied { sections: image@.sections, map: map@ },
                kept,
                manifest.entries@,
                position as int,
            ) == copy_sections(start, kept, manifest.entries@, 0),
        decreases count - position,
    {
        let kept_section = collection.kept_section(position);
        if kept_section.object >= manifest.entries.len() {
            return Err(
                LinkError::MissingSection {
                    object: kept_section.object,
                    section: kept_section.index,
                },
            );
        }
        let object = &manifest.entries[kept_section.object].object;
        if kept_section.index >= object.sections.len() {
            return Err(
                LinkError::MissingSection {
                    object: kept_section.object,
                    section: kept_section.index,
                },
            );
        }
        if object.comdats > 0 {
            return Err(LinkError::Comdat { object: kept_section.object, count: object.comdats });
        }
        let output = match copy_section(
            kept_section.object,
            kept_section.index,
            &object.sections[kept_section.index],
        ) {
            Err(e) => {
                return Err(e);
            },
            Ok(output) => output,
        };
        let ghost before = image@.sections;
        let id = image.sections.len();
        image.sections.push(output);
        map.insert(kept_section.object, kept_section.index, id);
        assert(image@.sections =~= before.push(output@));
        position += 1;
    }
    image.flags = collection.e_flags();
    Ok(map)
}

/// The symbols copied so far and the map from input symbols to them.
pub struct SymbolsCopied {
    pub symbols: Seq<OutputSymbolView>,
    pub map: Map<(usize, usize), usize>,
}

/// The output symbol that an input symbol is copied to, or nothing where
/// the symbol stays behind.
///
/// The null symbol and file symbols stay behind, and so does a symbol of
/// a section that was not kept. A symbol of a kept section is attributed
/// to the output section and has as its value its distance from the
/// start of the input section. Symbols that are attributed to no
/// section, undefined, absolute or common keep their attribution and
/// their address. The name, size, kind, scope and weakness are kept, and
/// so are ELF flags. Any other attribution or flags, and a name that
/// cannot be read, end the link.
pub open spec fn copied_symbol(
    section_map: Map<(usize, usize), usize>,
    object_index: usize,
    object: InputObject,
    index: usize,
) -> Result<Option<OutputSymbolView>, LinkError> {
    let symbol = object.symbols@[index as int];
    let class = class_of_symbol_kind(symbol.kind);
    if class == SymbolClass::Null || class == SymbolClass::File {
        Ok(None)
    } else {
        match placed_symbol(section_map, object_index, object, index) {
            Err(e) => Err(e),
            Ok(None) => Ok(None),
            Ok(Some((section, value))) => match (copied_symbol_flags(symbol.flags), symbol.name) {
                (None, _) => Err(
                    LinkError::UnsupportedSymbolFlags { object: object_index, symbol: index },
                ),
                (Some(_), None) => Err(
                    LinkError::UnreadableSymbolName { object: object_index, symbol: index },
                ),
                (Some(flags), Some(name)) => Ok(
                    Some(
                        OutputSymbolView {
                            name: name@,
                            value,
                            size: symbol.size,
                            kind: symbol.kind,
                            scope: symbol.scope,
                            weak: symbol.weak,
                            section,
                            flags,
                        },
                    ),
                ),
            },
        }
    }
}

/// The attribution and value of the copy of an input symbol, or nothing
/// where the symbol belongs to a section that was not kept.
pub open spec fn placed_symbol(
    section_map: Map<(usize, usize), usize>,
    object_index: usize,
    object: InputObject,
    index: usize,
) -> Result<Option<(OutputSymbolSection, u64)>, LinkError> {
    let symbol = object.symbols@[index as int];
    match symbol.section {
        SymbolSection::Section(section) => {
            if !section_map.dom().contains((object_index, section)) {
                Ok(None)
            } else if section >= object.sections@.len() {
                Err(LinkError::SymbolSectionNotFound { object: object_index, symbol: index })
            } else if symbol.address < object.sections@[section as int].address {
                Err(LinkError::SymbolBelowSection { object: object_index, symbol: index })
            } else {
                Ok(
                    Some(
                        (
                            OutputSymbolSection::Section(section_map[(object_index, section)]),
                            (symbol.address - object.sections@[section as int].address) as u64,
                        ),
                    ),
                )
            }
        },
        SymbolSection::NoSection => Ok(Some((OutputSymbolSection::NoSection, symbol.address))),
        SymbolSection::Undefined => Ok(Some((OutputSymbolSection::Undefined, symbol.address))),
        SymbolSection::Absolute => Ok(Some((OutputSymbolSection::Absolute, symbol.address))),
        SymbolSection::Common => Ok(Some((OutputSymbolSection::Common, symbol.address))),
        SymbolSection::Unknown => Err(
            LinkError::UnsupportedSymbolSection { object: object_index, symbol: index },
        ),
    }
}

/// The flags of the copy of a symbol, where they are supported.
pub open spec fn copied_symbol_flags(flags: SymbolFlags) -> Option<OutputSymbolFlags> {
    match flags {
        SymbolFlags::NoFlags => Some(OutputSymbolFlags::NoFlags),
        SymbolFlags::Elf { st_info, st_other } => Some(OutputSymbolFlags::Elf { st_info, st_other }),
        SymbolFlags::Other => None,
    }
}

/// Visits one symbol of an object: where it is copied, its copy goes
/// behind the symbols copied so far and its output identifier, which is
/// its position in the image, is recorded.
pub open spec fn copy_symbol_step(
    state: SymbolsCopied,
    section_map: Map<(usize, usize), usize>,
    object_index: usize,
    object: InputObject,
    index: usize,
) -> Result<SymbolsCopied, LinkError> {
    match copied_symbol(section_map, object_index, object, index) {
        Err(e) => Err(e),
        Ok(None) => Ok(state),
        Ok(Some(symbol)) => Ok(
            SymbolsCopied {
                symbols: state.symbols.push(symbol),
                map: state.map.insert((object_index, index), state.symbols.len() as usize),
            },
        ),
    }
}

/// Visits the symbols of an object from index `from` on, in index order.
pub open spec fn copy_object_symbols(
    state: SymbolsCopied,
    section_map: Map<(usize, usize), usize>,
    object_index: usize,
    object: InputObject,
    from: int,
) -> Result<SymbolsCopied, LinkError>
    decreases object.symbols@.len() - from,
{
    if from < 0 || from >= object.symbols@.len() {
        Ok(state)
    } else {
        match copy_symbol_step(state, section_map, object_index, object, from as usize) {
            Err(e) => Err(e),
            Ok(next) => copy_object_symbols(next, section_map, object_index, object, from + 1),
        }
    }
}

/// Visits the symbols of the objects of the manifest from position `from`
/// on, in manifest order.
pub open spec fn copy_symbols(
    state: SymbolsCopied,
    section_map: Map<(usize, usize), usize>,
    entries: Seq<ManifestEntry>,
    from: int,
) -> Result<SymbolsCopied, LinkError>
    decreases entries.len() - from,
{
    if from < 0 || from >= entries.len() {
        Ok(state)
    } else {
        match copy_object_symbols(state, section_map, from as usize, entries[from].object, 0) {
            Err(e) => Err(e),
            Ok(next) => copy_symbols(next, section_map, entries, from + 1),
        }
    }
}

/// Decides the attribution and value of the copy of a symbol.
fn place_symbol(
    output_sections: &OutputMap,
    object_index: usize,
    object: &InputObject,
    index: usize,
) -> (result: Result<Option<(OutputSymbolSection, u64)>, LinkError>)
    requires
        index < object.symbols@.len(),
    ensures
        result == placed_symbol(output_sections@, object_index, *object, index),
{
    let symbol = &object.symbols[index];
    match symbol.section {
        SymbolSection::Section(section) => {
            match output_sections.get(object_index, section) {
                None => Ok(None),
                Some(id) => {
                    if section >= object.sections.len() {
                        Err(
                            LinkError::SymbolSectionNotFound {
                                object: object_index,
                                symbol: index,
                            },
                        )
                    } else if symbol.address < object.sections[section].address {
                        Err(LinkError::SymbolBelowSection { object: object_index, symbol: index })
                    } else {
                        Ok(
                            Some(
                                (
                                    OutputSymbolSection::Section(id),
                                    symbol.address - object.sections[section].address,
                                ),
                            ),
                        )
                    }
                },
            }
        },
        SymbolSection::NoSection => Ok(Some((OutputSymbolSection::NoSection, symbol.address))),
        SymbolSection::Undefined => Ok(Some((OutputSymbolSection::Undefined, symbol.address))),
        SymbolSection::Absolute => Ok(Some((OutputSymbolSection::Absolute, symbol.address))),
        SymbolSection::Common => Ok(Some((OutputSymbolSection::Common, symbol.address))),
        SymbolSection::Unknown => Err(
            LinkError::UnsupportedSymbolSection { object: object_index, symbol: index },
        ),
    }
}

/// Copies one input symbol, or decides that it stays behind.
fn copy_symbol(
    output_sections: &OutputMap,
    object_index: usize,
    object: &InputObject,
    index: usize,
) -> (result: Result<Option<OutputSymbol>, LinkError>)
    requires
        index < object.symbols@.len(),
    ensures
        match copied_symbol(output_sections@, object_index, *object, index) {
            Ok(Some(copied)) => result matches Ok(Some(output)) && output@ == copied,
            Ok(None) => result matches Ok(None),
            Err(e) => result matches Err(error) && error == e,
        },
{
    let symbol = &object.symbols[index];
    let class = symbol_class(symbol.kind);
    if class == SymbolClass::Null || class == SymbolClass::File {
        return Ok(None);
    }
    let (section, value) = match place_symbol(output_sections, object_index, object, index) {
        Err(e) => {
            return Err(e);
        },
        Ok(None) => {
            return Ok(None);
        },
        Ok(Some(placed)) => placed,
    };
    let flags = match symbol.flags {
        SymbolFlags::NoFlags => OutputSymbolFlags::NoFlags,
        SymbolFlags::Elf { st_info, st_other } => OutputSymbolFlags::Elf { st_info, st_other },
        SymbolFlags::Other => {
            return Err(LinkError::UnsupportedSymbolFlags { object: object_index, symbol: index });
        },
    };
    let name = match &symbol.name {
        None => {
            return Err(LinkError::UnreadableSymbolName { object: object_index, symbol: index });
        },
        Some(name) => name.clone(),
    };
    Ok(
        Some(
            OutputSymbol {
                name,
                value,
                size: symbol.size,
                kind: symbol.kind,
                scope: symbol.scope,
                weak: symbol.weak,
                section,
                flags,
            },
        ),
    )
}

/// Copies the symbols of every object of the manifest into the image, in
/// manifest order and within an object in index order. Returns the map
/// from the copied input symbols to their output symbols.
pub fn symbols(image: &mut Image, manifest: &Manifest, output_sections: &OutputMap) -> (result:
    Result<OutputMap, LinkError>)
    ensures
        match copy_symbols(
            SymbolsCopied { symbols: old(image)@.symbols, map: Map::empty() },
            output_sections@,
            manifest.entries@,
            0,
        ) {
            Ok(done) => result matches Ok(map) && map@ == done.map && map.shape() == symbol_counts(
                manifest.entries@,
            ) && final(image)@ == (ImageView { symbols: done.symbols, ..old(image)@ }),
            Err(e) => result matches Err(error) && error == e,
        },
{
    let mut map = empty_symbol_map(manifest);
    let ghost start = SymbolsCopied { symbols: image@.symbols, map: Map::empty() };
    let mut position: usize = 0;
    while position < manifest.entries.len()
        invariant
            position <= manifest.entries@.len(),
            start == (SymbolsCopied { symbols: old(image)@.symbols, map: Map::empty() }),
            map.shape() == symbol_counts(manifest.entries@),
            image@.sections == old(image)@.sections,
            image@.relocations == old(image)@.relocations,
            image@.flags == old(image)@.flags,
            copy_symbols(
                SymbolsCopied { symbols: image@.symbols, map: map@ },
                output_sections@,
                manifest.entries@,
                position as int,
            ) == copy_symbols(start, output_sections@, manifest.entries@, 0),
        decreases manifest.entries@.len() - position,
    {
        let object = &manifest.entries[position].object;
        let ghost object_start = SymbolsCopied { symbols: image@.symbols, map: map@ };
        let mut index: usize = 0;
        while index < object.symbols.len()
            invariant
                index <= object.symbols@.len(),
                position < manifest.entries@.len(),
                *object == manifest.entries@[position as int].object,
                start == (SymbolsCopied { symbols: old(image)@.symbols, map: Map::empty() }),
                copy_symbols(object_start, output_sections@, manifest.entries@, position as int)
                    == copy_symbols(start, output_sections@, manifest.entries@, 0),
                map.shape() == symbol_counts(manifest.entries@),
                image@.sections == old(image)@.sections,
                image@.relocations == old(image)@.relocations,
                image@.flags == old(image)@.flags,
                copy_object_symbols(
                    SymbolsCopied { symbols: image@.symbols, map: map@ },
                    output_sections@,
                    position,
                    *object,
                    index as int,
                ) == copy_object_symbols(object_start, output_sections@, position, *object, 0),
            decreases object.symbols@.len() - index,
        {
            match copy_symbol(output_sections, position, object, index) {
                Err(e) => {
                    return Err(e);
                },
                Ok(None) => {},
                Ok(Some(output)) => {
                    let ghost before = image@.symbols;
                    let id = image.symbols.len();
                    image.symbols.push(output);
                    map.insert(position, index, id);
                    assert(image@.symbols =~= before.push(output@));
                },
            }
            index += 1;
        }
        position += 1;
    }
    Ok(map)
}

/// The output relocation that an input relocation is copied to, or
/// nothing where the relocation is dropped.
///
/// A relocation against a symbol follows the symbol, and is dropped with
/// a symbol that was not copied. A relocation against a section refers
/// to the canonical section symbol of the output section; where that
/// section was not kept, the link ends. So it does on any other target.
/// The offset, size, kind, encoding and addend are kept.
pub open spec fn retargeted(
    section_map: Map<(usize, usize), usize>,
    symbol_map: Map<(usize, usize), usize>,
    object_index: usize,
    section_index: usize,
    relocation_index: usize,
    relocation: InputRelocation,
    output_section: usize,
) -> Result<Option<OutputRelocation>, LinkError> {
    match relocation.target {
        RelocationTarget::Symbol(symbol) => {
            if symbol_map.dom().contains((object_index, symbol)) {
                Ok(
                    Some(
                        relocation_to(
                            relocation,
                            output_section,
                            SymbolRef::Symbol(symbol_map[(object_index, symbol)]),
                        ),
                    ),
                )
            } else {
                Ok(None)
            }
        },
        RelocationTarget::Section(section) => {
            if section_map.dom().contains((object_index, section)) {
                Ok(
                    Some(
                        relocation_to(
                            relocation,
                            output_section,
                            SymbolRef::SectionSymbol(section_map[(object_index, section)]),
                        ),
                    ),
                )
            } else {
                Err(
                    LinkError::UnmappedSection {
                        object: object_index,
                        section: section_index,
                        relocation: relocation_index,
                        target: section,
                    },
                )
            }
        },
        RelocationTarget::Other => Err(
            LinkError::UnsupportedRelocation {
                object: object_index,
                section: section_index,
                relocation: relocation_index,
            },
        ),
    }
}

/// The copy of a relocation that patches `output_section` and refers to
/// `symbol`.
pub open spec fn relocation_to(
    relocation: InputRelocation,
    output_section: usize,
    symbol: SymbolRef,
) -> OutputRelocation {
    OutputRelocation {
        section: output_section,
        offset: relocation.offset,
        size: relocation.size,
        kind: relocation.kind,
        encoding: relocation.encoding,
        symbol,
        addend: relocation.addend,
    }
}

/// Visits the relocations of a kept section from index `from` on.
pub open spec fn copy_section_relocations(
    copied: Seq<OutputRelocation>,
    section_map: Map<(usize, usize), usize>,
    symbol_map: Map<(usize, usize), usize>,
    object_index: usize,
    section_index: usize,
    relocations: Seq<InputRelocation>,
    output_section: usize,
    from: int,
) -> Result<Seq<OutputRelocation>, LinkError>
    decreases relocations.len() - from,
{
    if from < 0 || from >= relocations.len() {
        Ok(copied)
    } else {
        match retargeted(
            section_map,
            symbol_map,
            object_index,
            section_index,
            from as usize,
            relocations[from],
            output_section,
        ) {
            Err(e) => Err(e),
            Ok(None) => copy_section_relocations(
                copied,
                section_map,
                symbol_map,
                object_index,
                section_index,
                relocations,
                output_section,
                from + 1,
            ),
            Ok(Some(relocation)) => copy_section_relocations(
                copied.push(relocation),
                section_map,
                symbol_map,
                object_index,
                section_index,
                relocations,
                output_section,
                from + 1,
            ),
        }
    }
}

/// Visits the sections of an object from index `from` on. The
/// relocations of metadata sections and of sections that were not kept
/// vanish.
pub open spec fn copy_object_relocations(
    copied: Seq<OutputRelocation>,
    section_map: Map<(usize, usize), usize>,
    symbol_map: Map<(usize, usize), usize>,
    object_index: usize,
    object: InputObject,
    from: int,
) -> Result<Seq<OutputRelocation>, LinkError>
    decreases object.sections@.len() - from,
{
    if from < 0 || from >= object.sections@.len() {
        Ok(copied)
    } else {
        let section = object.sections@[from];
        if kind_is_metadata(section.kind) || !section_map.dom().contains(
            (object_index, from as usize),
        ) {
            copy_object_relocations(copied, section_map, symbol_map, object_index, object, from + 1)
        } else {
            match copy_section_relocations(
                copied,
                section_map,
                symbol_map,
                object_index,
                from as usize,
                section.relocations@,
                section_map[(object_index, from as usize)],
                0,
            ) {
                Err(e) => Err(e),
                Ok(next) => copy_object_relocations(
                    next,
                    section_map,
                    symbol_map,
                    object_index,
                    object,
                    from + 1,
                ),
            }
        }
    }
}

/// Visits the objects of the manifest from position `from` on.
pub open spec fn copy_relocations(
    copied: Seq<OutputRelocation>,
    section_map: Map<(usize, usize), usize>,
    symbol_map: Map<(usize, usize), usize>,
    entries: Seq<ManifestEntry>,
    from: int,
) -> Result<Seq<OutputRelocation>, LinkError>
    decreases entries.len() - from,
{
    if from < 0 || from >= entries.len() {
        Ok(copied)
    } else {
        match copy_object_relocations(
            copied,
            section_map,
            symbol_map,
            from as usize,
            entries[from].object,
            0,
        ) {
            Err(e) => Err(e),
            Ok(next) => copy_relocations(next, section_map, symbol_map, entries, from + 1),
        }
    }
}

/// Retargets one relocation.
fn retarget(
    output_sections: &OutputMap,
    output_symbols: &OutputMap,
    object_index: usize,
    section_index: usize,
    relocation_index: usize,
    relocation: &InputRelocation,
    output_section: usize,
) -> (result: Result<Option<OutputRelocation>, LinkError>)
    ensures
        result == retargeted(
            output_sections@,
            output_symbols@,
            object_index,
            section_index,
            relocation_index,
            *relocation,
            output_section,
        ),
{
    let symbol = match relocation.target {
        RelocationTarget::Symbol(symbol) => match output_symbols.get(object_index, symbol) {
            Some(id) => SymbolRef::Symbol(id),
            None => {
                return Ok(None);
            },
        },
        RelocationTarget::Section(section) => match output_sections.get(object_index, section) {
            Some(id) => SymbolRef::SectionSymbol(id),
            None => {
                return Err(
                    LinkError::UnmappedSection {
                        object: object_index,
                        section: section_index,
                        relocation: relocation_index,
                        target: section,
                    },
                );
            },
        },
        RelocationTarget::Other => {
            return Err(
                LinkError::UnsupportedRelocation {
                    object: object_index,
                    section: section_index,
                    relocation: relocation_index,
                },
            );
        },
    };
    Ok(
        Some(
            OutputRelocation {
                section: output_section,
                offset: relocation.offset,
                size: relocation.size,
                kind: relocation.kind,
                encoding: relocation.encoding,
                symbol,
                addend: relocation.addend,
            },
        ),
    )
}

/// Copies the relocations of one kept section.
fn section_relocations(
    image: &mut Image,
    output_sections: &OutputMap,
    output_symbols: &OutputMap,
    object_index: usize,
    section_index: usize,
    relocations: &Vec<InputRelocation>,
    output_section: usize,
) -> (result: Result<(), LinkError>)
    ensures
        match copy_section_relocations(
            old(image)@.relocations,
            output_sections@,
            output_symbols@,
            object_index,
            section_index,
            relocations@,
            output_section,
            0,
        ) {
            Ok(done) => result is Ok && final(image)@ == (ImageView {
                relocations: done,
                ..old(image)@
            }),
            Err(e) => result == Err::<(), LinkError>(e),
        },
{
    let mut index: usize = 0;
    while index < relocations.len()
        invariant
            index <= relocations@.len(),
            image@.sections == old(image)@.sections,
            image@.symbols == old(image)@.symbols,
            image@.flags == old(image)@.flags,
            copy_section_relocations(
                image@.relocations,
                output_sections@,
                output_symbols@,
                object_index,
                section_index,
                relocations@,
                output_section,
                index as int,
            ) == copy_section_relocations(
                old(image)@.relocations,
                output_sections@,
                output_symbols@,
                object_index,
                section_index,
                relocations@,
                output_section,
                0,
            ),
        decreases relocations@.len() - index,
    {
        match retarget(
            output_sections,
            output_symbols,
            object_index,
            section_index,
            index,
            &relocations[index],
            output_section,
        ) {
            Err(e) => {
                return Err(e);
            },
            Ok(None) => {},
            Ok(Some(relocation)) => {
                image.relocations.push(relocation);
            },
        }
        index += 1;
    }
    Ok(())
}

/// Copies the relocations of one object.
fn object_relocations(
    image: &mut Image,
    output_sections: &OutputMap,
    output_symbols: &OutputMap,
    object_index: usize,
    object: &InputObject,
) -> (result: Result<(), LinkError>)
    ensures
        match copy_object_relocations(
            old(image)@.relocations,
            output_sections@,
            output_symbols@,
            object_index,
            *object,
            0,
        ) {
            Ok(done) => result is Ok && final(image)@ == (ImageView {
                relocations: done,
                ..old(image)@
            }),
            Err(e) => result == Err::<(), LinkError>(e),
        },
{
    let mut index: usize = 0;
    while index < object.sections.len()
        invariant
            index <= object.sections@.len(),
            image@.sections == old(image)@.sections,
            image@.symbols == old(image)@.symbols,
            image@.flags == old(image)@.flags,
            copy_object_relocations(
                image@.relocations,
                output_sections@,
                output_symbols@,
                object_index,
                *object,
                index as int,
            ) == copy_object_relocations(
                old(image)@.relocations,
                output_sections@,
                output_symbols@,
                object_index,
                *object,
                0,
            ),
        decreases object.sections@.len() - index,
    {
        let section = &object.sections[index];
        if !is_metadata(section.kind) {
            match output_sections.get(object_index, index) {
                None => {},
                Some(output_section) => {
                    match section_relocations(
                        image,
                        output_sections,
                        output_symbols,
                        object_index,
                        index,
                        &section.relocations,
                        output_section,
                    ) {
                        Err(e) => {
                            return Err(e);
                        },
                        Ok(()) => {},
                    }
                },
            }
        }
        index += 1;
    }
    Ok(())
}

/// Copies the relocations of the kept sections of every object of the
/// manifest into the image, each retargeted to the output symbol or
/// section symbol that stands for its input target.
pub fn relocations(
    image: &mut Image,
    manifest: &Manifest,
    output_sections: &OutputMap,
    output_symbols: &OutputMap,
) -> (result: Result<(), LinkError>)
    ensures
        match copy_relocations(
            old(image)@.relocations,
            output_sections@,
            output_symbols@,
            manifest.entries@,
            0,
        ) {
            Ok(done) => result is Ok && final(image)@ == (ImageView {
                relocations: done,
                ..old(image)@
            }),
            Err(e) => result == Err::<(), LinkError>(e),
        },
{
    let mut position: usize = 0;
    while position < manifest.entries.len()
        invariant
            position <= manifest.entries@.len(),
            image@.sections == old(image)@.sections,
            image@.symbols == old(image)@.symbols,
            image@.flags == old(image)@.flags,
            copy_relocations(
                image@.relocations,
                output_sections@,
                output_symbols@,
                manifest.entries@,
                position as int,
            ) == copy_relocations(
                old(image)@.relocations,
                output_sections@,
                output_symbols@,
                manifest.entries@,
                0,
            ),
        decreases manifest.entries@.len() - position,
    {
        match object_relocations(
            image,
            output_sections,
            output_symbols,
            position,
            &manifest.entries[position].object,
        ) {
            Err(e) => {
                return Err(e);
            },
            Ok(()) => {},
        }
        position += 1;
    }
    Ok(())
}

/// The pair of object position and section index that stands for a kept
/// section in the map of output sections.
pub open spec fn section_key(kept: ManifestSection) -> (usize, usize) {
    (kept.object, kept.index)
}

/// Whether the map of a section copy is injective, leads to sections of
/// the image only, and leads from each input section to its copy.
pub open spec fn sections_consistent(state: SectionsCopied, entries: Seq<ManifestEntry>) -> bool {
    &&& is_injective(state.map)
    &&& values_below(state.map, state.sections.len())
    &&& forall|key: (usize, usize)| #[trigger]
        state.map.dom().contains(key) ==> key.0 < entries.len() && key.1
            < entries[key.0 as int].object.sections@.len() && copied_section(
            key.0,
            key.1,
            entries[key.0 as int].object.sections@[key.1 as int],
        ) == Ok::<OutputSectionView, LinkError>(state.sections[state.map[key] as int])
}

/// A section copy that succeeds puts one output section behind the
/// others for each kept section, in kept order. Its map is injective and
/// holds every kept section, each with the position of its own copy in
/// the image, and nothing else beyond what it held before.
pub proof fn lemma_copy_sections(
    state: SectionsCopied,
    kept: Seq<ManifestSection>,
    entries: Seq<ManifestEntry>,
    from: int,
)
    requires
        0 <= from <= kept.len(),
        sections_consistent(state, entries),
        state.sections.len() + (kept.len() - from) <= usize::MAX,
        copy_sections(state, kept, entries, from) is Ok,
    ensures
        ({
            let done = copy_sections(state, kept, entries, from)->Ok_0;
            &&& sections_consistent(done, entries)
            &&& done.sections.len() == state.sections.len() + (kept.len() - from)
            &&& forall|i: int|
                0 <= i < state.sections.len() ==> done.sections[i] == state.sections[i]
            &&& forall|i: int|
                from <= i < kept.len() ==> done.map.dom().contains(#[trigger] section_key(kept[i]))
            &&& forall|key: (usize, usize)| #[trigger]
                done.map.dom().contains(key) ==> state.map.dom().contains(key) || exists|i: int|
                    from <= i < kept.len() && section_key(kept[i]) == key
        }),
    decreases kept.len() - from,
{
    if from < kept.len() {
        let next = copy_kept_section(state, kept[from], entries)->Ok_0;
        let key = section_key(kept[from]);
        let id = state.sections.len() as usize;
        assert(next.map == state.map.insert(key, id));
        assert forall|a: (usize, usize), b: (usize, usize)|
            next.map.dom().contains(a) && next.map.dom().contains(b) && a != b implies next.map[a]
            != next.map[b] by {
            if a != key {
                assert(state.map.dom().contains(a));
            }
            if b != key {
                assert(state.map.dom().contains(b));
            }
        }
        assert forall|other: (usize, usize)| #[trigger]
            next.map.dom().contains(other) implies other.0 < entries.len() && other.1
            < entries[other.0 as int].object.sections@.len() && copied_section(
            other.0,
            other.1,
            entries[other.0 as int].object.sections@[other.1 as int],
        ) == Ok::<OutputSectionView, LinkError>(next.sections[next.map[other] as int]) by {
            if other != key {
                assert(state.map.dom().contains(other));
            }
        }
        assert(values_below(next.map, next.sections.len())) by {
            assert forall|other: (usize, usize)|
                next.map.dom().contains(other) implies next.map[other] < next.sections.len() by {
                if other != key {
                    assert(state.map.dom().contains(other));
                }
            }
        }
        lemma_copy_sections(next, kept, entries, from + 1);
        let done = copy_sections(state, kept, entries, from)->Ok_0;
        assert(done.map.dom().contains(section_key(kept[from]))) by {
            lemma_copy_sections_keeps(next, kept, entries, from + 1, key);
        }
        assert forall|other: (usize, usize)| #[trigger]
            done.map.dom().contains(other) implies state.map.dom().contains(other) || exists|i: int|
            from <= i < kept.len() && section_key(kept[i]) == other by {
            if !next.map.dom().contains(other) {
                let i = choose|i: int| from + 1 <= i < kept.len() && section_key(kept[i]) == other;
                assert(from <= i < kept.len() && section_key(kept[i]) == other);
            } else if other == key {
                assert(section_key(kept[from]) == other);
            }
        }
    }
}

/// A section copy puts one output section into the image for each kept
/// section.
pub proof fn lemma_copy_sections_len(
    state: SectionsCopied,
    kept: Seq<ManifestSection>,
    entries: Seq<ManifestEntry>,
    from: int,
)
    requires
        0 <= from <= kept.len(),
        copy_sections(state, kept, entries, from) is Ok,
    ensures
        copy_sections(state, kept, entries, from)->Ok_0.sections.len() == state.sections.len() + (
        kept.len() - from),
    decreases kept.len() - from,
{
    if from < kept.len() {
        let next = copy_kept_section(state, kept[from], entries)->Ok_0;
        lemma_copy_sections_len(next, kept, entries, from + 1);
    }
}

/// Where no section is kept twice, a section copy leads from each kept
/// section to the output section at its own position behind the
/// sections that the image held before.
pub proof fn lemma_copy_sections_positions(
    state: SectionsCopied,
    kept: Seq<ManifestSection>,
    entries: Seq<ManifestEntry>,
    from: int,
    position: int,
)
    requires
        0 <= from <= position < kept.len(),
        forall|i: int, j: int|
            0 <= i < j < kept.len() ==> section_key(#[trigger] kept[i]) != section_key(
                #[trigger] kept[j],
            ),
        state.sections.len() + (kept.len() - from) <= usize::MAX,
        copy_sections(state, kept, entries, from) is Ok,
    ensures
        ({
            let done = copy_sections(state, kept, entries, from)->Ok_0;
            &&& done.map.dom().contains(section_key(kept[position]))
            &&& done.map[section_key(kept[position])] == state.sections.len() + (position - from)
        }),
    decreases kept.len() - from,
{
    let next = copy_kept_section(state, kept[from], entries)->Ok_0;
    if from == position {
        lemma_copy_sections_untouched(next, kept, entries, from + 1, section_key(kept[from]));
    } else {
        lemma_copy_sections_positions(next, kept, entries, from + 1, position);
    }
}

/// A section copy leaves alone what its map holds for a section that is
/// not among those that it copies.
proof fn lemma_copy_sections_untouched(
    state: SectionsCopied,
    kept: Seq<ManifestSection>,
    entries: Seq<ManifestEntry>,
    from: int,
    key: (usize, usize),
)
    requires
        0 <= from <= kept.len(),
        state.map.dom().contains(key),
        forall|j: int| from <= j < kept.len() ==> section_key(#[trigger] kept[j]) != key,
        copy_sections(state, kept, entries, from) is Ok,
    ensures
        copy_sections(state, kept, entries, from)->Ok_0.map.dom().contains(key),
        copy_sections(state, kept, entries, from)->Ok_0.map[key] == state.map[key],
    decreases kept.len() - from,
{
    if from < kept.len() {
        let next = copy_kept_section(state, kept[from], entries)->Ok_0;
        assert(section_key(kept[from]) != key);
        lemma_copy_sections_untouched(next, kept, entries, from + 1, key);
    }
}

/// A section copy forgets no key of its map.
proof fn lemma_copy_sections_keeps(
    state: SectionsCopied,
    kept: Seq<ManifestSection>,
    entries: Seq<ManifestEntry>,
    from: int,
    key: (usize, usize),
)
    requires
        0 <= from <= kept.len(),
        state.map.dom().contains(key),
        copy_sections(state, kept, entries, from) is Ok,
    ensures
        copy_sections(state, kept, entries, from)->Ok_0.map.dom().contains(key),
    decreases kept.len() - from,
{
    if from < kept.len() {
        let next = copy_kept_section(state, kept[from], entries)->Ok_0;
        lemma_copy_sections_keeps(next, kept, entries, from + 1, key);
    }
}

/// Whether the map of a symbol copy is injective, leads to symbols of
/// the image only, and leads from each input symbol to its copy.
pub open spec fn symbols_consistent(
    state: SymbolsCopied,
    section_map: Map<(usize, usize), usize>,
    entries: Seq<ManifestEntry>,
) -> bool {
    &&& is_injective(state.map)
    &&& values_below(state.map, state.symbols.len())
    &&& forall|key: (usize, usize)| #[trigger]
        state.map.dom().contains(key) ==> key.0 < entries.len() && key.1
            < entries[key.0 as int].object.symbols@.len() && copied_symbol(
            section_map,
            key.0,
            entries[key.0 as int].object,
            key.1,
        ) == Ok::<Option<OutputSymbolView>, LinkError>(
            Some(state.symbols[state.map[key] as int]),
        )
}

/// Whether every symbol among `symbols` that is attributed to a section
/// is attributed to one of the first `sections` output sections.
pub open spec fn attributions_below(symbols: Seq<OutputSymbolView>, sections: nat) -> bool {
    forall|i: int|
        0 <= i < symbols.len() ==> (#[trigger] symbols[i].section matches OutputSymbolSection::Section(
            id,
        ) ==> id < sections)
}

/// The copy of a symbol of a kept section is attributed to the output
/// section that the map of sections gives for the input section, and its
/// value is the distance of the symbol from the start of the input
/// section.
pub proof fn lemma_symbol_rebased(
    section_map: Map<(usize, usize), usize>,
    object_index: usize,
    object: InputObject,
    index: usize,
    section: usize,
)
    requires
        index < object.symbols@.len(),
        object.symbols@[index as int].section == SymbolSection::Section(section),
        section_map.dom().contains((object_index, section)),
        copied_symbol(section_map, object_index, object, index) matches Ok(Some(_)),
    ensures
        section < object.sections@.len(),
        ({
            let copied = copied_symbol(section_map, object_index, object, index)->Ok_0->0;
            &&& copied.section == OutputSymbolSection::Section(
                section_map[(object_index, section)],
            )
            &&& copied.value == object.symbols@[index as int].address
                - object.sections@[section as int].address
        }),
{
}

proof fn lemma_copy_object_symbols(
    state: SymbolsCopied,
    section_map: Map<(usize, usize), usize>,
    entries: Seq<ManifestEntry>,
    object_index: usize,
    from: int,
    sections: nat,
    limit: nat,
)
    requires
        object_index < entries.len(),
        0 <= from <= entries[object_index as int].object.symbols@.len(),
        symbols_consistent(state, section_map, entries),
        values_below(section_map, sections),
        attributions_below(state.symbols, sections),
        copy_object_symbols(
            state,
            section_map,
            object_index,
            entries[object_index as int].object,
            from,
        ) matches Ok(done) && done.symbols.len() <= limit,
        limit <= usize::MAX,
    ensures
        ({
            let done = copy_object_symbols(
                state,
                section_map,
                object_index,
                entries[object_index as int].object,
                from,
            )->Ok_0;
            &&& symbols_consistent(done, section_map, entries)
            &&& attributions_below(done.symbols, sections)
            &&& state.symbols.len() <= done.symbols.len()
            &&& forall|i: int|
                0 <= i < state.symbols.len() ==> done.symbols[i] == state.symbols[i]
        }),
    decreases entries[object_index as int].object.symbols@.len() - from,
{
    let object = entries[object_index as int].object;
    if from < object.symbols@.len() {
        assert(object.symbols@.len() == object.symbols.len());
        let next = copy_symbol_step(state, section_map, object_index, object, from as usize)->Ok_0;
        lemma_copy_object_symbols_grows(next, section_map, object_index, object, from + 1);
        match copied_symbol(section_map, object_index, object, from as usize) {
            Ok(Some(symbol)) => {
                let key = (object_index, from as usize);
                let id = state.symbols.len() as usize;
                assert(next.map == state.map.insert(key, id));
                assert forall|a: (usize, usize), b: (usize, usize)|
                    next.map.dom().contains(a) && next.map.dom().contains(b) && a
                    != b implies next.map[a] != next.map[b] by {
                    if a != key {
                        assert(state.map.dom().contains(a));
                    }
                    if b != key {
                        assert(state.map.dom().contains(b));
                    }
                }
                assert forall|other: (usize, usize)| #[trigger]
                    next.map.dom().contains(other) implies other.0 < entries.len() && other.1
                    < entries[other.0 as int].object.symbols@.len() && copied_symbol(
                    section_map,
                    other.0,
                    entries[other.0 as int].object,
                    other.1,
                ) == Ok::<Option<OutputSymbolView>, LinkError>(
                    Some(next.symbols[next.map[other] as int]),
                ) by {
                    if other != key {
                        assert(state.map.dom().contains(other));
                    }
                }
                assert(values_below(next.map, next.symbols.len())) by {
                    assert forall|other: (usize, usize)|
                        next.map.dom().contains(other) implies next.map[other]
                        < next.symbols.len() by {
                        if other != key {
                            assert(state.map.dom().contains(other));
                        }
                    }
                }
                assert(attributions_below(next.symbols, sections)) by {
                    assert forall|i: int| 0 <= i < next.symbols.len() implies (
                    #[trigger] next.symbols[i].section matches OutputSymbolSection::Section(id)
                        ==> id < sections) by {
                        if i < state.symbols.len() {
                            assert(next.symbols[i] == state.symbols[i]);
                        } else {
                            assert(next.symbols[i] == symbol);
                            match object.symbols@[from].section {
                                SymbolSection::Section(section) => {
                                    assert(section_map.dom().contains((object_index, section)));
                                },
                                _ => {},
                            }
                        }
                    }
                }
            },
            _ => {},
        }
        lemma_copy_object_symbols(
            next,
            section_map,
            entries,
            object_index,
            from + 1,
            sections,
            limit,
        );
    }
}

proof fn lemma_copy_object_symbols_grows(
    state: SymbolsCopied,
    section_map: Map<(usize, usize), usize>,
    object_index: usize,
    object: InputObject,
    from: int,
)
    requires
        0 <= from <= object.symbols@.len(),
        copy_object_symbols(state, section_map, object_index, object, from) is Ok,
    ensures
        state.symbols.len() <= copy_object_symbols(
            state,
            section_map,
            object_index,
            object,
            from,
        )->Ok_0.symbols.len(),
    decreases object.symbols@.len() - from,
{
    if from < object.symbols@.len() {
        let next = copy_symbol_step(state, section_map, object_index, object, from as usize)->Ok_0;
        lemma_copy_object_symbols_grows(next, section_map, object_index, object, from + 1);
    }
}

proof fn lemma_copy_symbols_grows(
    state: SymbolsCopied,
    section_map: Map<(usize, usize), usize>,
    entries: Seq<ManifestEntry>,
    from: int,
)
    requires
        0 <= from <= entries.len(),
        copy_symbols(state, section_map, entries, from) is Ok,
    ensures
        state.symbols.len() <= copy_symbols(state, section_map, entries, from)->Ok_0.symbols.len(),
    decreases entries.len() - from,
{
    if from < entries.len() {
        let next = copy_object_symbols(state, section_map, from as usize, entries[from].object, 0)->Ok_0;
        lemma_copy_object_symbols_grows(state, section_map, from as usize, entries[from].object, 0);
        lemma_copy_symbols_grows(next, section_map, entries, from + 1);
    }
}

/// A symbol copy that succeeds leaves the symbols that the image held
/// before in place. Its map is injective and leads from each copied
/// input symbol to the position of its own copy in the image; and where
/// the map of sections leads to sections of the image only, every copy
/// that is attributed to a section is attributed to one of the image.
pub proof fn lemma_copy_symbols(
    state: SymbolsCopied,
    section_map: Map<(usize, usize), usize>,
    entries: Seq<ManifestEntry>,
    from: int,
    sections: nat,
    limit: nat,
)
    requires
        0 <= from <= entries.len() <= usize::MAX,
        symbols_consistent(state, section_map, entries),
        values_below(section_map, sections),
        attributions_below(state.symbols, sections),
        copy_symbols(state, section_map, entries, from) matches Ok(done) && done.symbols.len()
            <= limit,
        limit <= usize::MAX,
    ensures
        ({
            let done = copy_symbols(state, section_map, entries, from)->Ok_0;
            &&& symbols_consistent(done, section_map, entries)
            &&& attributions_below(done.symbols, sections)
            &&& state.symbols.len() <= done.symbols.len()
            &&& forall|i: int|
                0 <= i < state.symbols.len() ==> done.symbols[i] == state.symbols[i]
        }),
    decreases entries.len() - from,
{
    if from < entries.len() {
        let next = copy_object_symbols(state, section_map, from as usize, entries[from].object, 0)->Ok_0;
        lemma_copy_symbols_grows(next, section_map, entries, from + 1);
        lemma_copy_object_symbols(state, section_map, entries, from as usize, 0, sections, limit);
        lemma_copy_symbols(next, section_map, entries, from + 1, sections, limit);
    }
}

/// Whether every relocation among `relocations` patches one of the first
/// `sections` output sections and refers to one of the first `symbols`
/// output symbols or to the section symbol of one of those sections.
pub open spec fn relocations_below(
    relocations: Seq<OutputRelocation>,
    sections: nat,
    symbols: nat,
) -> bool {
    relocations_below_from(relocations, 0, sections, symbols)
}

/// Whether every relocation among `relocations` from position `start` on
/// patches one of the first `sections` output sections and refers to one
/// of the first `symbols` output symbols or to the section symbol of one
/// of those sections.
pub open spec fn relocations_below_from(
    relocations: Seq<OutputRelocation>,
    start: int,
    sections: nat,
    symbols: nat,
) -> bool {
    forall|i: int|
        start <= i < relocations.len() ==> (#[trigger] relocations[i]).section < sections && (
        match relocations[i].symbol {
            SymbolRef::Symbol(id) => id < symbols,
            SymbolRef::SectionSymbol(id) => id < sections,
        })
}

proof fn lemma_copy_section_relocations(
    copied: Seq<OutputRelocation>,
    section_map: Map<(usize, usize), usize>,
    symbol_map: Map<(usize, usize), usize>,
    object_index: usize,
    section_index: usize,
    relocations: Seq<InputRelocation>,
    output_section: usize,
    from: int,
    sections: nat,
    symbols: nat,
    start: int,
)
    requires
        0 <= start <= copied.len(),
        0 <= from <= relocations.len(),
        values_below(section_map, sections),
        values_below(symbol_map, symbols),
        output_section < sections,
        relocations_below_from(copied, start, sections, symbols),
        copy_section_relocations(
            copied,
            section_map,
            symbol_map,
            object_index,
            section_index,
            relocations,
            output_section,
            from,
        ) is Ok,
    ensures
        ({
            let done = copy_section_relocations(
                copied,
                section_map,
                symbol_map,
                object_index,
                section_index,
                relocations,
                output_section,
                from,
            )->Ok_0;
            &&& relocations_below_from(done, start, sections, symbols)
            &&& copied.len() <= done.len()
            &&& forall|i: int| 0 <= i < copied.len() ==> done[i] == copied[i]
        }),
    decreases relocations.len() - from,
{
    if from < relocations.len() {
        match retargeted(
            section_map,
            symbol_map,
            object_index,
            section_index,
            from as usize,
            relocations[from],
            output_section,
        ) {
            Ok(Some(relocation)) => {
                let next = copied.push(relocation);
                match relocations[from].target {
                    RelocationTarget::Symbol(symbol) => {
                        assert(symbol_map.dom().contains((object_index, symbol)));
                    },
                    RelocationTarget::Section(section) => {
                        assert(section_map.dom().contains((object_index, section)));
                    },
                    RelocationTarget::Other => {},
                }
                assert forall|i: int| start <= i < next.len() implies (#[trigger] next[i]).section
                    < sections && (match next[i].symbol {
                    SymbolRef::Symbol(id) => id < symbols,
                    SymbolRef::SectionSymbol(id) => id < sections,
                }) by {
                    if i < copied.len() {
                        assert(next[i] == copied[i]);
                    }
                }
                lemma_copy_section_relocations(
                    next,
                    section_map,
                    symbol_map,
                    object_index,
                    section_index,
                    relocations,
                    output_section,
                    from + 1,
                    sections,
                    symbols,
                    start,
                );
            },
            Ok(None) => {
                lemma_copy_section_relocations(
                    copied,
                    section_map,
                    symbol_map,
                    object_index,
                    section_index,
                    relocations,
                    output_section,
                    from + 1,
                    sections,
                    symbols,
                    start,
                );
            },
            Err(_) => {},
        }
    }
}

proof fn lemma_copy_object_relocations(
    copied: Seq<OutputRelocation>,
    section_map: Map<(usize, usize), usize>,
    symbol_map: Map<(usize, usize), usize>,
    object_index: usize,
    object: InputObject,
    from: int,
    sections: nat,
    symbols: nat,
    start: int,
)
    requires
        0 <= start <= copied.len(),
        0 <= from <= object.sections@.len(),
        values_below(section_map, sections),
        values_below(symbol_map, symbols),
        relocations_below_from(copied, start, sections, symbols),
        copy_object_relocations(copied, section_map, symbol_map, object_index, object, from) is Ok,
    ensures
        ({
            let done = copy_object_relocations(
                copied,
                section_map,
                symbol_map,
                object_index,
                object,
                from,
            )->Ok_0;
            &&& relocations_below_from(done, start, sections, symbols)
            &&& copied.len() <= done.len()
            &&& forall|i: int| 0 <= i < copied.len() ==> done[i] == copied[i]
        }),
    decreases object.sections@.len() - from,
{
    if from < object.sections@.len() {
        let section = object.sections@[from];
        if kind_is_metadata(section.kind) || !section_map.dom().contains(
            (object_index, from as usize),
        ) {
            lemma_copy_object_relocations(
                copied,
                section_map,
                symbol_map,
                object_index,
                object,
                from + 1,
                sections,
                symbols,
                start,
            );
        } else {
            let output_section = section_map[(object_index, from as usize)];
            lemma_copy_section_relocations(
                copied,
                section_map,
                symbol_map,
                object_index,
                from as usize,
                section.relocations@,
                output_section,
                0,
                sections,
                symbols,
                start,
            );
            let next = copy_section_relocations(
                copied,
                section_map,
                symbol_map,
                object_index,
                from as usize,
                section.relocations@,
                output_section,
                0,
            )->Ok_0;
            lemma_copy_object_relocations(
                next,
                section_map,
                symbol_map,
                object_index,
                object,
                from + 1,
                sections,
                symbols,
                start,
            );
        }
    }
}

proof fn lemma_copy_relocations_from(
    copied: Seq<OutputRelocation>,
    section_map: Map<(usize, usize), usize>,
    symbol_map: Map<(usize, usize), usize>,
    entries: Seq<ManifestEntry>,
    from: int,
    sections: nat,
    symbols: nat,
    start: int,
)
    requires
        0 <= start <= copied.len(),
        0 <= from <= entries.len(),
        values_below(section_map, sections),
        values_below(symbol_map, symbols),
        relocations_below_from(copied, start, sections, symbols),
        copy_relocations(copied, section_map, symbol_map, entries, from) is Ok,
    ensures
        ({
            let done = copy_relocations(copied, section_map, symbol_map, entries, from)->Ok_0;
            &&& relocations_below_from(done, start, sections, symbols)
            &&& copied.len() <= done.len()
            &&& forall|i: int| 0 <= i < copied.len() ==> done[i] == copied[i]
        }),
    decreases entries.len() - from,
{
    if from < entries.len() {
        lemma_copy_object_relocations(
            copied,
            section_map,
            symbol_map,
            from as usize,
            entries[from].object,
            0,
            sections,
            symbols,
            start,
        );
        let next = copy_object_relocations(
            copied,
            section_map,
            symbol_map,
            from as usize,
            entries[from].object,
            0,
        )->Ok_0;
        lemma_copy_relocations_from(
            next,
            section_map,
            symbol_map,
            entries,
            from + 1,
            sections,
            symbols,
            start,
        );
    }
}

/// Where the maps of sections and symbols lead to sections and symbols
/// of the image only, a relocation copy that succeeds leaves the
/// relocations that the image held before in place, and every relocation
/// that it adds patches a section of the image and refers to a symbol of
/// the image or to the section symbol of a section of the image.
pub proof fn lemma_copy_relocations(
    copied: Seq<OutputRelocation>,
    section_map: Map<(usize, usize), usize>,
    symbol_map: Map<(usize, usize), usize>,
    entries: Seq<ManifestEntry>,
    from: int,
    sections: nat,
    symbols: nat,
)
    requires
        0 <= from <= entries.len(),
        values_below(section_map, sections),
        values_below(symbol_map, symbols),
        copy_relocations(copied, section_map, symbol_map, entries, from) is Ok,
    ensures
        ({
            let done = copy_relocations(copied, section_map, symbol_map, entries, from)->Ok_0;
            &&& relocations_below_from(done, copied.len() as int, sections, symbols)
            &&& copied.len() <= done.len()
            &&& forall|i: int| 0 <= i < copied.len() ==> done[i] == copied[i]
        }),
{
    lemma_copy_relocations_from(
        copied,
        section_map,
        symbol_map,
        entries,
        from,
        sections,
        symbols,
        copied.len() as int,
    );
}

/// Whether a symbol is copied and not left behind.
pub open spec fn is_copied(
    section_map: Map<(usize, usize), usize>,
    object_index: usize,
    object: InputObject,
    index: usize,
) -> bool {
    copied_symbol(section_map, object_index, object, index) matches Ok(Some(_))
}

/// What a symbol copy does to the keys of its map: it forgets none, and
/// every key that it adds or renews leads to a symbol behind those that
/// the image held before.
pub open spec fn keys_grown(before: SymbolsCopied, after: SymbolsCopied) -> bool {
    &&& forall|key: (usize, usize)| #[trigger]
        before.map.dom().contains(key) ==> after.map.dom().contains(key)
    &&& forall|key: (usize, usize)| #[trigger]
        after.map.dom().contains(key) ==> (before.map.dom().contains(key) && after.map[key]
            == before.map[key]) || after.map[key] >= before.symbols.len()
}

proof fn lemma_copy_object_symbols_keys(
    state: SymbolsCopied,
    section_map: Map<(usize, usize), usize>,
    object_index: usize,
    object: InputObject,
    from: int,
    limit: nat,
)
    requires
        0 <= from <= object.symbols@.len(),
        copy_object_symbols(state, section_map, object_index, object, from) matches Ok(done)
            && done.symbols.len() <= limit,
        limit <= usize::MAX,
    ensures
        ({
            let done = copy_object_symbols(state, section_map, object_index, object, from)->Ok_0;
            &&& keys_grown(state, done)
            &&& forall|index: int|
                from <= index < object.symbols@.len() && #[trigger] is_copied(section_map, object_index, object, index as usize) ==> done.map.dom().contains((object_index, index as usize))
        }),
    decreases object.symbols@.len() - from,
{
    if from < object.symbols@.len() {
        assert(object.symbols@.len() == object.symbols.len());
        let next = copy_symbol_step(state, section_map, object_index, object, from as usize)->Ok_0;
        lemma_copy_object_symbols_grows(next, section_map, object_index, object, from + 1);
        lemma_copy_object_symbols_keys(next, section_map, object_index, object, from + 1, limit);
        let done = copy_object_symbols(state, section_map, object_index, object, from)->Ok_0;
        assert(state.symbols.len() <= next.symbols.len() <= done.symbols.len()) by {
            lemma_copy_object_symbols_grows(state, section_map, object_index, object, from);
        }
        assert forall|key: (usize, usize)| #[trigger]
            state.map.dom().contains(key) implies done.map.dom().contains(key) by {
            assert(next.map.dom().contains(key));
        }
        assert forall|key: (usize, usize)| #[trigger] done.map.dom().contains(key) implies (
        state.map.dom().contains(key) && done.map[key] == state.map[key]) || done.map[key]
            >= state.symbols.len() by {
            if next.map.dom().contains(key) && done.map[key] == next.map[key] {
                if !(state.map.dom().contains(key) && next.map[key] == state.map[key]) {
                    assert(next.map[key] == state.symbols.len() as usize);
                }
            }
        }
        assert forall|index: int|
            from <= index < object.symbols@.len() && #[trigger] is_copied(section_map, object_index, object, index as usize) implies done.map.dom().contains(
            (object_index, index as usize),
        ) by {
            if index == from {
                assert(next.map.dom().contains((object_index, from as usize)));
            }
        }
    }
}

/// A symbol copy that succeeds forgets no key of its map, leads from
/// every key that it adds to a symbol behind those that the image held
/// before, and holds a key for every symbol that it visits and does not
/// leave behind.
pub proof fn lemma_copy_symbols_keys(
    state: SymbolsCopied,
    section_map: Map<(usize, usize), usize>,
    entries: Seq<ManifestEntry>,
    from: int,
    limit: nat,
)
    requires
        0 <= from <= entries.len() <= usize::MAX,
        copy_symbols(state, section_map, entries, from) matches Ok(done) && done.symbols.len()
            <= limit,
        limit <= usize::MAX,
    ensures
        ({
            let done = copy_symbols(state, section_map, entries, from)->Ok_0;
            &&& keys_grown(state, done)
            &&& forall|object: int, index: int|
                from <= object < entries.len() && 0 <= index
                    < entries[object].object.symbols@.len() && #[trigger] is_copied(section_map, object as usize, entries[object].object, index as usize) ==> done.map.dom().contains(
                    (object as usize, index as usize),
                )
        }),
    decreases entries.len() - from,
{
    if from < entries.len() {
        let input = entries[from].object;
        let next = copy_object_symbols(state, section_map, from as usize, input, 0)->Ok_0;
        lemma_copy_symbols_grows(next, section_map, entries, from + 1);
        lemma_copy_object_symbols_grows(state, section_map, from as usize, input, 0);
        lemma_copy_object_symbols_keys(state, section_map, from as usize, input, 0, limit);
        lemma_copy_symbols_keys(next, section_map, entries, from + 1, limit);
        let done = copy_symbols(state, section_map, entries, from)->Ok_0;
        assert forall|key: (usize, usize)| #[trigger]
            state.map.dom().contains(key) implies done.map.dom().contains(key) by {
            assert(next.map.dom().contains(key));
        }
        assert forall|key: (usize, usize)| #[trigger] done.map.dom().contains(key) implies (
        state.map.dom().contains(key) && done.map[key] == state.map[key]) || done.map[key]
            >= state.symbols.len() by {
            if next.map.dom().contains(key) && done.map[key] == next.map[key] {
            }
        }
        assert forall|object: int, index: int|
            from <= object < entries.len() && 0 <= index < entries[object].object.symbols@.len()
                && #[trigger] is_copied(section_map, object as usize, entries[object].object, index as usize) implies done.map.dom().contains(
            (object as usize, index as usize),
        ) by {
            if object == from {
                assert(next.map.dom().contains((from as usize, index as usize)));
            }
        }
    }
}

} // verus!
