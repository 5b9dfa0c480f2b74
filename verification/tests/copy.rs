use itsylinker::config::{Config, Output, Section, SectionTable};
use itsylinker::copy::{relocations, sections, symbols};
use itsylinker::error::{ErrorClass, LinkError};
use itsylinker::flags::FileFlags;
use itsylinker::gather::Collection;
use itsylinker::image::{
    Image, OutputMap, OutputSymbolFlags, OutputSymbolSection, SectionContents, SymbolRef,
};
use itsylinker::input::{
    InputObject, InputRelocation, InputSection, InputSymbol, RelocationTarget, SectionFlags,
    SymbolFlags, SymbolSection,
};
use itsylinker::manifest::Manifest;
use itsylinker::output::link;
use object::{RelocationEncoding, RelocationKind, SectionKind, SymbolKind, SymbolScope};

fn section(name: &str, kind: SectionKind, data: &[u8]) -> InputSection {
    InputSection {
        name: Some(String::from(name)),
        segment: Some(String::new()),
        kind,
        data: Some(data.to_vec()),
        size: data.len() as u64,
        align: 4,
        address: 0,
        flags: SectionFlags::Elf { sh_flags: 6 },
        relocations: Vec::new(),
    }
}

fn symbol(name: &str, kind: SymbolKind, section: SymbolSection, address: u64) -> InputSymbol {
    InputSymbol {
        name: Some(name.as_bytes().to_vec()),
        kind,
        scope: SymbolScope::Linkage,
        weak: false,
        section,
        address,
        size: 4,
        flags: SymbolFlags::Elf { st_info: 0x12, st_other: 0 },
    }
}

fn null_symbol() -> InputSymbol {
    InputSymbol {
        name: Some(Vec::new()),
        kind: SymbolKind::Null,
        scope: SymbolScope::Unknown,
        weak: false,
        section: SymbolSection::Undefined,
        address: 0,
        size: 0,
        flags: SymbolFlags::Elf { st_info: 0, st_other: 0 },
    }
}

fn relocation(offset: u64, target: RelocationTarget, addend: i64) -> InputRelocation {
    InputRelocation {
        offset,
        size: 0,
        kind: RelocationKind::Elf(18),
        encoding: RelocationEncoding::Generic,
        target,
        addend,
    }
}

fn object_with(sections: Vec<InputSection>, symbols: Vec<InputSymbol>) -> InputObject {
    InputObject { flags: FileFlags::Elf { e_flags: 0 }, comdats: 0, sections, symbols }
}

fn manifest_of(objects: Vec<(&str, InputObject)>) -> Manifest {
    let mut manifest = Manifest::new();
    for (identifier, object) in objects {
        manifest.add_object(String::from(identifier), object);
    }
    manifest
}

fn script(buckets: &[(&str, &[&str])]) -> Config {
    let mut table = SectionTable::new();
    for (name, patterns) in buckets {
        let includes = patterns.iter().map(|p| String::from(*p)).collect();
        table.insert(String::from(*name), Section::new(includes, None, None));
    }
    Config::new(Output::new(None, None, None, None, None, None), table)
}

fn text_script() -> Config {
    script(&[("text", &[".text*"])])
}

const CODE: [u8; 16] = [0x13, 0, 0, 0, 0x13, 0, 0, 0, 0x13, 0, 0, 0, 0x67, 0x80, 0, 0];

fn data_of(contents: &SectionContents) -> Vec<u8> {
    match contents {
        SectionContents::Data(bytes) => bytes.clone(),
        SectionContents::Uninitialized(_) => panic!("section has no contents"),
    }
}

#[test]
fn minimal_object_links_to_one_section_and_one_symbol() {
    let object = object_with(
        vec![section("", SectionKind::Metadata, &[]), section(".text", SectionKind::Text, &CODE)],
        vec![null_symbol(), symbol("_start", SymbolKind::Text, SymbolSection::Section(1), 0)],
    );
    let manifest = manifest_of(vec![("a.o", object)]);
    let linked = link(&text_script(), &manifest).unwrap();
    let image = &linked.image;
    assert_eq!(image.sections.len(), 1);
    assert_eq!(image.sections[0].name, ".text");
    assert_eq!(image.sections[0].segment, "");
    assert!(image.sections[0].kind == SectionKind::Text);
    assert_eq!(image.sections[0].align, 4);
    assert!(image.sections[0].flags == SectionFlags::Elf { sh_flags: 6 });
    assert_eq!(data_of(&image.sections[0].contents), CODE.to_vec());
    assert_eq!(image.symbols.len(), 1);
    assert_eq!(image.symbols[0].name, b"_start".to_vec());
    assert_eq!(image.symbols[0].value, 0);
    assert_eq!(image.symbols[0].size, 4);
    assert!(image.symbols[0].kind == SymbolKind::Text);
    assert!(image.symbols[0].scope == SymbolScope::Linkage);
    assert!(!image.symbols[0].weak);
    assert!(image.symbols[0].section == OutputSymbolSection::Section(0));
    assert!(image.symbols[0].flags == OutputSymbolFlags::Elf { st_info: 0x12, st_other: 0 });
    assert!(image.relocations.is_empty());
    assert_eq!(image.flags, FileFlags::Elf { e_flags: 0 });
    assert_eq!(linked.output_sections.get(0, 1), Some(0));
    assert_eq!(linked.output_sections.get(0, 0), None);
    assert_eq!(linked.output_symbols.get(0, 1), Some(0));
    assert_eq!(linked.output_symbols.get(0, 0), None);
}

fn caller_and_callee() -> Manifest {
    let mut text_a = section(".text", SectionKind::Text, &CODE);
    text_a.relocations.push(relocation(4, RelocationTarget::Symbol(1), 0));
    let a = object_with(
        vec![text_a],
        vec![null_symbol(), symbol("foo", SymbolKind::Text, SymbolSection::Undefined, 0)],
    );
    let b = object_with(
        vec![section(".text", SectionKind::Text, &CODE)],
        vec![null_symbol(), symbol("foo", SymbolKind::Text, SymbolSection::Section(0), 8)],
    );
    manifest_of(vec![("a.o", a), ("b.o", b)])
}

#[test]
fn two_objects_are_laid_out_in_input_order_and_the_call_follows_its_symbol() {
    let manifest = caller_and_callee();
    let linked = link(&text_script(), &manifest).unwrap();
    let image = &linked.image;
    assert_eq!(image.sections.len(), 2);
    assert_eq!(linked.output_sections.get(0, 0), Some(0));
    assert_eq!(linked.output_sections.get(1, 0), Some(1));
    // `foo` as referenced by a.o stays undefined; `foo` of b.o is defined in section 1.
    assert_eq!(image.symbols.len(), 2);
    assert_eq!(linked.output_symbols.get(0, 1), Some(0));
    assert_eq!(linked.output_symbols.get(1, 1), Some(1));
    assert!(image.symbols[0].section == OutputSymbolSection::Undefined);
    assert!(image.symbols[1].section == OutputSymbolSection::Section(1));
    assert_eq!(image.symbols[1].value, 8);
    assert_eq!(image.relocations.len(), 1);
    let r = &image.relocations[0];
    assert_eq!(r.section, 0);
    assert_eq!(r.offset, 4);
    assert_eq!(r.size, 0);
    assert!(r.kind == RelocationKind::Elf(18));
    assert!(r.encoding == RelocationEncoding::Generic);
    assert_eq!(r.addend, 0);
    assert!(r.symbol == SymbolRef::Symbol(0));
}

#[test]
fn symbol_value_is_rebased_onto_its_section() {
    let mut text = section(".text", SectionKind::Text, &CODE);
    text.address = 0x1000;
    let object = object_with(
        vec![section(".data", SectionKind::Data, &[1, 2, 3, 4]), text],
        vec![null_symbol(), symbol("f", SymbolKind::Text, SymbolSection::Section(1), 0x100c)],
    );
    let manifest = manifest_of(vec![("a.o", object)]);
    let linked = link(&text_script(), &manifest).unwrap();
    assert_eq!(linked.image.symbols[0].value, 0xc);
    assert!(linked.image.symbols[0].section == OutputSymbolSection::Section(0));
    assert_eq!(linked.output_sections.get(0, 1), Some(0));
}

#[test]
fn symbol_below_its_section_is_fatal() {
    let mut text = section(".text", SectionKind::Text, &CODE);
    text.address = 0x1000;
    let object = object_with(
        vec![text],
        vec![symbol("f", SymbolKind::Text, SymbolSection::Section(0), 0xfff)],
    );
    let manifest = manifest_of(vec![("a.o", object)]);
    let error = link(&text_script(), &manifest).unwrap_err();
    assert_eq!(error, LinkError::SymbolBelowSection { object: 0, symbol: 0 });
    assert!(error.class() == ErrorClass::Format);
}

#[test]
fn symbols_of_dropped_sections_and_their_relocations_vanish() {
    let mut text = section(".text", SectionKind::Text, &CODE);
    text.relocations.push(relocation(0, RelocationTarget::Symbol(1), 0));
    text.relocations.push(relocation(8, RelocationTarget::Symbol(2), 4));
    let mut debug = section(".debug_info", SectionKind::Debug, &[9, 9]);
    debug.relocations.push(relocation(0, RelocationTarget::Symbol(2), 0));
    let object = object_with(
        vec![text, debug],
        vec![
            null_symbol(),
            symbol("in_debug", SymbolKind::Data, SymbolSection::Section(1), 1),
            symbol("in_text", SymbolKind::Text, SymbolSection::Section(0), 8),
        ],
    );
    let manifest = manifest_of(vec![("a.o", object)]);
    let linked = link(&text_script(), &manifest).unwrap();
    let image = &linked.image;
    assert_eq!(image.sections.len(), 1);
    assert_eq!(image.sections[0].name, ".text");
    assert_eq!(image.symbols.len(), 1);
    assert_eq!(image.symbols[0].name, b"in_text".to_vec());
    assert_eq!(linked.output_symbols.get(0, 1), None);
    assert_eq!(linked.output_symbols.get(0, 2), Some(0));
    assert_eq!(image.relocations.len(), 1);
    assert_eq!(image.relocations[0].offset, 8);
    assert_eq!(image.relocations[0].addend, 4);
    assert!(image.relocations[0].symbol == SymbolRef::Symbol(0));
}

#[test]
fn null_and_file_symbols_stay_behind() {
    let object = object_with(
        vec![section(".text", SectionKind::Text, &CODE)],
        vec![
            null_symbol(),
            symbol("a.c", SymbolKind::File, SymbolSection::NoSection, 0),
            symbol("f", SymbolKind::Text, SymbolSection::Section(0), 0),
        ],
    );
    let manifest = manifest_of(vec![("a.o", object)]);
    let linked = link(&text_script(), &manifest).unwrap();
    assert_eq!(linked.image.symbols.len(), 1);
    assert_eq!(linked.output_symbols.get(0, 0), None);
    assert_eq!(linked.output_symbols.get(0, 1), None);
    assert_eq!(linked.output_symbols.get(0, 2), Some(0));
}

#[test]
fn unsectioned_symbols_keep_their_class_and_address() {
    let object = object_with(
        vec![section(".text", SectionKind::Text, &CODE)],
        vec![
            symbol("u", SymbolKind::Unknown, SymbolSection::Undefined, 0),
            symbol("a", SymbolKind::Data, SymbolSection::Absolute, 0x1234),
            symbol("c", SymbolKind::Data, SymbolSection::Common, 8),
            symbol("n", SymbolKind::Data, SymbolSection::NoSection, 7),
        ],
    );
    let manifest = manifest_of(vec![("a.o", object)]);
    let linked = link(&text_script(), &manifest).unwrap();
    let symbols = &linked.image.symbols;
    assert_eq!(symbols.len(), 4);
    assert!(symbols[0].section == OutputSymbolSection::Undefined);
    assert_eq!(symbols[0].value, 0);
    assert!(symbols[1].section == OutputSymbolSection::Absolute);
    assert_eq!(symbols[1].value, 0x1234);
    assert!(symbols[2].section == OutputSymbolSection::Common);
    assert_eq!(symbols[2].value, 8);
    assert!(symbols[3].section == OutputSymbolSection::NoSection);
    assert_eq!(symbols[3].value, 7);
}

#[test]
fn symbol_flags_are_carried_over() {
    let mut plain = symbol("p", SymbolKind::Data, SymbolSection::Absolute, 0);
    plain.flags = SymbolFlags::NoFlags;
    let mut weak = symbol("w", SymbolKind::Data, SymbolSection::Absolute, 0);
    weak.flags = SymbolFlags::Elf { st_info: 0x21, st_other: 2 };
    weak.weak = true;
    weak.scope = SymbolScope::Dynamic;
    weak.size = 99;
    let object = object_with(vec![], vec![plain, weak]);
    let manifest = manifest_of(vec![("a.o", object)]);
    let linked = link(&text_script(), &manifest).unwrap();
    let symbols = &linked.image.symbols;
    assert!(symbols[0].flags == OutputSymbolFlags::NoFlags);
    assert!(symbols[1].flags == OutputSymbolFlags::Elf { st_info: 0x21, st_other: 2 });
    assert!(symbols[1].weak);
    assert!(symbols[1].scope == SymbolScope::Dynamic);
    assert_eq!(symbols[1].size, 99);
}

#[test]
fn unknown_symbol_attribution_is_fatal() {
    let object = object_with(
        vec![],
        vec![null_symbol(), symbol("x", SymbolKind::Data, SymbolSection::Unknown, 0)],
    );
    let manifest = manifest_of(vec![("a.o", object)]);
    let error = link(&text_script(), &manifest).unwrap_err();
    assert_eq!(error, LinkError::UnsupportedSymbolSection { object: 0, symbol: 1 });
    assert!(error.class() == ErrorClass::Policy);
}

#[test]
fn unknown_symbol_flags_are_fatal() {
    let mut odd = symbol("x", SymbolKind::Data, SymbolSection::Absolute, 0);
    odd.flags = SymbolFlags::Other;
    let manifest = manifest_of(vec![("a.o", object_with(vec![], vec![odd]))]);
    let error = link(&text_script(), &manifest).unwrap_err();
    assert_eq!(error, LinkError::UnsupportedSymbolFlags { object: 0, symbol: 0 });
}

#[test]
fn unreadable_symbol_name_is_fatal() {
    let mut nameless = symbol("x", SymbolKind::Data, SymbolSection::Absolute, 0);
    nameless.name = None;
    let manifest = manifest_of(vec![("a.o", object_with(vec![], vec![nameless]))]);
    let error = link(&text_script(), &manifest).unwrap_err();
    assert_eq!(error, LinkError::UnreadableSymbolName { object: 0, symbol: 0 });
}

#[test]
fn unknown_flags_of_a_symbol_of_a_dropped_section_do_not_matter() {
    let mut odd = symbol("x", SymbolKind::Data, SymbolSection::Section(0), 0);
    odd.flags = SymbolFlags::Other;
    odd.name = None;
    let object = object_with(vec![section(".data", SectionKind::Data, &[0])], vec![odd]);
    let manifest = manifest_of(vec![("a.o", object)]);
    let linked = link(&text_script(), &manifest).unwrap();
    assert!(linked.image.symbols.is_empty());
}

#[test]
fn unreadable_section_data_is_fatal() {
    let mut text = section(".text", SectionKind::Text, &CODE);
    text.data = None;
    let manifest = manifest_of(vec![("a.o", object_with(vec![text], vec![]))]);
    let error = link(&text_script(), &manifest).unwrap_err();
    assert_eq!(error, LinkError::UnreadableSectionData { object: 0, section: 0 });
}

#[test]
fn unreadable_segment_name_is_fatal() {
    let mut text = section(".text", SectionKind::Text, &CODE);
    text.segment = None;
    let manifest = manifest_of(vec![("a.o", object_with(vec![text], vec![]))]);
    let error = link(&text_script(), &manifest).unwrap_err();
    assert_eq!(error, LinkError::UnreadableSegmentName { object: 0, section: 0 });
}

#[test]
fn unreadable_data_of_a_dropped_section_does_not_matter() {
    let mut data = section(".data", SectionKind::Data, &[1]);
    data.data = None;
    data.segment = None;
    let object = object_with(vec![section(".text", SectionKind::Text, &CODE), data], vec![]);
    let manifest = manifest_of(vec![("a.o", object)]);
    let linked = link(&text_script(), &manifest).unwrap();
    assert_eq!(linked.image.sections.len(), 1);
}

#[test]
fn uninitialized_sections_reserve_their_size() {
    let mut bss = section(".bss", SectionKind::UninitializedData, &[]);
    bss.size = 64;
    bss.align = 16;
    let manifest = manifest_of(vec![("a.o", object_with(vec![bss], vec![]))]);
    let linked = link(&script(&[("bss", &[".bss*"])]), &manifest).unwrap();
    let out = &linked.image.sections[0];
    assert_eq!(out.align, 16);
    match &out.contents {
        SectionContents::Uninitialized(size) => assert_eq!(*size, 64),
        SectionContents::Data(_) => panic!("bss has contents"),
    }
}

#[test]
fn relocation_against_a_kept_section_refers_to_its_section_symbol() {
    let mut text = section(".text", SectionKind::Text, &CODE);
    text.relocations.push(relocation(12, RelocationTarget::Section(1), -4));
    let object = object_with(
        vec![text, section(".text.callee", SectionKind::Text, &CODE)],
        vec![],
    );
    let manifest = manifest_of(vec![("a.o", object)]);
    let linked = link(&text_script(), &manifest).unwrap();
    assert_eq!(linked.image.relocations.len(), 1);
    let r = &linked.image.relocations[0];
    assert_eq!(r.section, 0);
    assert!(r.symbol == SymbolRef::SectionSymbol(1));
    assert_eq!(r.offset, 12);
    assert_eq!(r.addend, -4);
}

#[test]
fn relocation_against_a_dropped_section_is_fatal() {
    let mut text = section(".text", SectionKind::Text, &CODE);
    text.relocations.push(relocation(0, RelocationTarget::Symbol(0), 0));
    text.relocations.push(relocation(4, RelocationTarget::Section(1), 0));
    let object = object_with(vec![text, section(".data", SectionKind::Data, &[1])], vec![]);
    let manifest = manifest_of(vec![("a.o", object)]);
    let error = link(&text_script(), &manifest).unwrap_err();
    assert_eq!(error, LinkError::UnmappedSection { object: 0, section: 0, relocation: 1, target: 1 });
    assert!(error.class() == ErrorClass::Policy);
}

#[test]
fn relocation_against_anything_else_is_fatal() {
    let mut text = section(".text", SectionKind::Text, &CODE);
    text.relocations.push(relocation(0, RelocationTarget::Other, 0));
    let manifest = manifest_of(vec![("a.o", object_with(vec![text], vec![]))]);
    let error = link(&text_script(), &manifest).unwrap_err();
    assert_eq!(error, LinkError::UnsupportedRelocation { object: 0, section: 0, relocation: 0 });
}

#[test]
fn relocations_of_metadata_sections_vanish() {
    let mut meta = section(".rela.text", SectionKind::Metadata, &[]);
    meta.relocations.push(relocation(0, RelocationTarget::Other, 0));
    let object = object_with(vec![section(".text", SectionKind::Text, &CODE), meta], vec![]);
    let manifest = manifest_of(vec![("a.o", object)]);
    let linked = link(&script(&[("text", &["*"])]), &manifest).unwrap();
    assert_eq!(linked.image.sections.len(), 1);
    assert!(linked.image.relocations.is_empty());
}

#[test]
fn relocations_come_in_manifest_then_section_then_relocation_order() {
    let mut a0 = section(".text.0", SectionKind::Text, &CODE);
    a0.relocations.push(relocation(1, RelocationTarget::Section(0), 0));
    a0.relocations.push(relocation(2, RelocationTarget::Section(1), 0));
    let mut a1 = section(".text.1", SectionKind::Text, &CODE);
    a1.relocations.push(relocation(3, RelocationTarget::Section(0), 0));
    let mut b0 = section(".init", SectionKind::Text, &CODE);
    b0.relocations.push(relocation(4, RelocationTarget::Section(0), 0));
    let manifest = manifest_of(vec![
        ("a.o", object_with(vec![a0, a1], vec![])),
        ("b.o", object_with(vec![b0], vec![])),
    ]);
    // `.init` of b.o is laid out first, so it is output section 0.
    let linked = link(&script(&[("text", &[".init*", ".text*"])]), &manifest).unwrap();
    let listed: Vec<(usize, u64, SymbolRef)> =
        linked.image.relocations.iter().map(|r| (r.section, r.offset, r.symbol)).collect();
    assert!(
        listed
            == vec![
                (1, 1, SymbolRef::SectionSymbol(1)),
                (1, 2, SymbolRef::SectionSymbol(2)),
                (2, 3, SymbolRef::SectionSymbol(1)),
                (0, 4, SymbolRef::SectionSymbol(0)),
            ]
    );
}

#[test]
fn every_kept_section_has_an_output_section() {
    let manifest = caller_and_callee();
    let linked = link(&text_script(), &manifest).unwrap();
    for position in 0..linked.collection.len() {
        let kept = linked.collection.section(position).unwrap();
        let id = linked.output_sections.get(kept.object, kept.index).unwrap();
        assert!(id < linked.image.sections.len());
        assert_eq!(id, position);
    }
}

#[test]
fn every_relocation_refers_to_a_symbol_of_the_image() {
    let manifest = caller_and_callee();
    let linked = link(&text_script(), &manifest).unwrap();
    for r in linked.image.relocations.iter() {
        assert!(r.section < linked.image.sections.len());
        match r.symbol {
            SymbolRef::Symbol(id) => assert!(id < linked.image.symbols.len()),
            SymbolRef::SectionSymbol(id) => assert!(id < linked.image.sections.len()),
        }
    }
}

#[test]
fn maps_are_injective() {
    let manifest = caller_and_callee();
    let linked = link(&text_script(), &manifest).unwrap();
    let mut section_ids = Vec::new();
    let mut symbol_ids = Vec::new();
    for object in 0..manifest.len() {
        for index in 0..4 {
            if let Some(id) = linked.output_sections.get(object, index) {
                assert!(!section_ids.contains(&id));
                section_ids.push(id);
            }
            if let Some(id) = linked.output_symbols.get(object, index) {
                assert!(!symbol_ids.contains(&id));
                symbol_ids.push(id);
            }
        }
    }
    assert_eq!(section_ids.len(), 2);
    assert_eq!(symbol_ids.len(), 2);
}

#[test]
fn merged_flags_become_the_flags_of_the_image() {
    let mut a = object_with(vec![section(".text", SectionKind::Text, &CODE)], vec![]);
    a.flags = FileFlags::Elf { e_flags: 0b00001 };
    let mut b = object_with(vec![section(".text", SectionKind::Text, &CODE)], vec![]);
    b.flags = FileFlags::Elf { e_flags: 0b00100 };
    let manifest = manifest_of(vec![("p.o", a), ("q.o", b)]);
    let linked = link(&text_script(), &manifest).unwrap();
    assert_eq!(linked.image.flags, FileFlags::Elf { e_flags: 0b00101 });
}

#[test]
fn passes_can_be_run_one_by_one() {
    let manifest = caller_and_callee();
    let mut collection = Collection::new(&text_script(), &manifest).unwrap();
    collection.merge();
    let mut image = Image::new();
    let output_sections = sections(&mut image, &collection, &manifest).unwrap();
    assert_eq!(image.sections.len(), 2);
    assert!(image.symbols.is_empty());
    let output_symbols = symbols(&mut image, &manifest, &output_sections).unwrap();
    assert_eq!(image.symbols.len(), 2);
    assert!(image.relocations.is_empty());
    relocations(&mut image, &manifest, &output_sections, &output_symbols).unwrap();
    assert_eq!(image.relocations.len(), 1);
}

#[test]
fn symbols_pass_with_an_empty_map_keeps_only_unsectioned_symbols() {
    let manifest = caller_and_callee();
    let mut image = Image::new();
    let empty = OutputMap::with_shape(&vec![1, 1]);
    let output_symbols = symbols(&mut image, &manifest, &empty).unwrap();
    assert_eq!(image.symbols.len(), 1);
    assert_eq!(output_symbols.get(0, 1), Some(0));
    assert_eq!(output_symbols.get(1, 1), None);
}

#[test]
fn symbol_of_a_section_outside_its_object_is_fatal() {
    let object = object_with(
        vec![section(".text", SectionKind::Text, &CODE)],
        vec![symbol("f", SymbolKind::Text, SymbolSection::Section(3), 0)],
    );
    let manifest = manifest_of(vec![("a.o", object)]);
    let mut map = OutputMap::with_shape(&vec![4]);
    map.insert(0, 3, 0);
    let mut image = Image::new();
    let error = symbols(&mut image, &manifest, &map).unwrap_err();
    assert_eq!(error, LinkError::SymbolSectionNotFound { object: 0, symbol: 0 });
}

#[test]
fn comdat_is_checked_again_when_sections_are_copied() {
    let good = object_with(vec![section(".text", SectionKind::Text, &CODE)], vec![]);
    let manifest = manifest_of(vec![("a.o", good)]);
    let collection = Collection::new(&text_script(), &manifest).unwrap();
    let mut bad = object_with(vec![section(".text", SectionKind::Text, &CODE)], vec![]);
    bad.comdats = 3;
    let changed = manifest_of(vec![("a.o", bad)]);
    let mut image = Image::new();
    let error = sections(&mut image, &collection, &changed).unwrap_err();
    assert_eq!(error, LinkError::Comdat { object: 0, count: 3 });
}

#[test]
fn kept_section_that_the_manifest_lacks_is_fatal() {
    let good = object_with(vec![section(".text", SectionKind::Text, &CODE)], vec![]);
    let manifest = manifest_of(vec![("a.o", good)]);
    let collection = Collection::new(&text_script(), &manifest).unwrap();
    let mut image = Image::new();
    let error = sections(&mut image, &collection, &Manifest::new()).unwrap_err();
    assert_eq!(error, LinkError::MissingSection { object: 0, section: 0 });
    let other = manifest_of(vec![("a.o", object_with(vec![], vec![]))]);
    let error = sections(&mut image, &collection, &other).unwrap_err();
    assert_eq!(error, LinkError::MissingSection { object: 0, section: 0 });
}

#[test]
fn output_map_holds_what_is_inserted() {
    let mut map = OutputMap::with_shape(&vec![2, 0, 3]);
    assert_eq!(map.get(0, 0), None);
    map.insert(0, 1, 7);
    map.insert(2, 2, 9);
    map.insert(0, 1, 8);
    assert_eq!(map.get(0, 1), Some(8));
    assert_eq!(map.get(2, 2), Some(9));
    assert_eq!(map.get(0, 0), None);
    assert_eq!(map.get(1, 0), None);
    assert_eq!(map.get(5, 5), None);
}
