use itsylinker::config::{Config, Output, Section, SectionTable};
use itsylinker::emit::{alignment_is_valid, emit, name_is_valid, validate, EmitError};
use itsylinker::flags::FileFlags;
use itsylinker::image::{
    Image, OutputRelocation, OutputSection, OutputSymbol, OutputSymbolFlags, OutputSymbolSection,
    SectionContents, SymbolRef,
};
use itsylinker::input::SectionFlags;
use itsylinker::manifest::Manifest;
use itsylinker::output::link;
use object::read::{Object as _, ObjectSection as _, ObjectSymbol as _};
use object::write::{Object, Relocation, Symbol, SymbolSection};
use object::{
    Architecture, BinaryFormat, Endianness, RelocationEncoding, RelocationKind, RelocationTarget,
    SectionKind, SymbolKind, SymbolScope,
};

const CODE_A: [u8; 16] = [0x13, 0, 0, 0, 0x97, 0, 0, 0, 0xe7, 0x80, 0, 0, 0x67, 0x80, 0, 0];
const CODE_B: [u8; 12] = [0x13, 0, 0, 0, 0x13, 0, 0, 0, 0x67, 0x80, 0, 0];

fn script(buckets: &[(&str, &[&str])]) -> Config {
    let mut table = SectionTable::new();
    for (name, patterns) in buckets {
        let includes = patterns.iter().map(|p| String::from(*p)).collect();
        table.insert(String::from(*name), Section::new(includes, None, None));
    }
    Config::new(Output::new(None, None, None, None, None, None), table)
}

fn global(name: &str, section: SymbolSection, value: u64) -> Symbol {
    Symbol {
        name: name.as_bytes().to_vec(),
        value,
        size: 4,
        kind: if section == SymbolSection::Undefined { SymbolKind::Unknown } else { SymbolKind::Text },
        scope: if section == SymbolSection::Undefined {
            SymbolScope::Unknown
        } else {
            SymbolScope::Dynamic
        },
        weak: false,
        section,
        flags: object::SymbolFlags::None,
    }
}

/// `a.o` calls `foo` from `.text`, carries debug information and a
/// zero-initialized buffer.
fn caller(e_flags: u32) -> Vec<u8> {
    let mut elf = Object::new(BinaryFormat::Elf, Architecture::Riscv64, Endianness::Little);
    elf.flags = object::FileFlags::Elf { e_flags };
    let text = elf.add_section(Vec::new(), b".text".to_vec(), SectionKind::Text);
    elf.append_section_data(text, &CODE_A, 4);
    let debug = elf.add_section(Vec::new(), b".debug_info".to_vec(), SectionKind::Debug);
    elf.append_section_data(debug, &[1, 2, 3, 4, 5, 6, 7, 8], 1);
    let bss = elf.add_section(Vec::new(), b".bss".to_vec(), SectionKind::UninitializedData);
    elf.append_section_bss(bss, 48, 16);
    elf.add_symbol(global("_start", SymbolSection::Section(text), 0));
    let in_debug = elf.add_symbol(global("in_debug", SymbolSection::Section(debug), 4));
    let foo = elf.add_symbol(global("foo", SymbolSection::Undefined, 0));
    for (offset, symbol) in [(4, foo), (8, in_debug)] {
        elf.add_relocation(
            text,
            Relocation {
                offset,
                size: 0,
                kind: RelocationKind::Elf(18),
                encoding: RelocationEncoding::Generic,
                symbol,
                addend: 0,
            },
        )
        .unwrap();
    }
    elf.write().unwrap()
}

/// `b.o` defines `foo` at offset 8 of its `.text`.
fn callee(e_flags: u32) -> Vec<u8> {
    let mut elf = Object::new(BinaryFormat::Elf, Architecture::Riscv64, Endianness::Little);
    elf.flags = object::FileFlags::Elf { e_flags };
    let text = elf.add_section(Vec::new(), b".text".to_vec(), SectionKind::Text);
    elf.append_section_data(text, &CODE_B, 4);
    elf.add_symbol(global("foo", SymbolSection::Section(text), 8));
    elf.write().unwrap()
}

fn manifest() -> Manifest {
    let mut manifest = Manifest::new();
    manifest.add(&String::from("a.o"), &caller(0b00001)).unwrap();
    manifest.add(&String::from("b.o"), &callee(0b00100)).unwrap();
    manifest
}

fn linked_bytes(config: &Config) -> Vec<u8> {
    emit(&link(config, &manifest()).unwrap().image).unwrap()
}

fn text_and_bss() -> Config {
    script(&[("text", &[".text*"]), ("bss", &[".bss*"])])
}

#[test]
fn emitted_file_is_a_little_endian_elf_for_64_bit_risc_v() {
    let bytes = linked_bytes(&text_and_bss());
    let file = object::File::parse(&*bytes).unwrap();
    assert!(file.format() == BinaryFormat::Elf);
    assert!(file.architecture() == Architecture::Riscv64);
    assert!(file.is_little_endian());
    assert!(file.is_64());
}

#[test]
fn emitted_flags_are_the_merged_flags() {
    let bytes = linked_bytes(&text_and_bss());
    let file = object::File::parse(&*bytes).unwrap();
    assert!(file.flags() == object::FileFlags::Elf { e_flags: 0b00101 });
}

#[test]
fn emitted_sections_are_the_kept_sections_in_kept_order() {
    let bytes = linked_bytes(&text_and_bss());
    let file = object::File::parse(&*bytes).unwrap();
    let kept: Vec<(String, Vec<u8>, u64)> = file
        .sections()
        .filter(|s| s.kind() != SectionKind::Metadata)
        .map(|s| (s.name().unwrap().to_string(), s.data().unwrap().to_vec(), s.size()))
        .collect();
    assert_eq!(
        kept,
        vec![
            (String::from(".text"), CODE_A.to_vec(), 16),
            (String::from(".text"), CODE_B.to_vec(), 12),
            (String::from(".bss"), Vec::new(), 48),
        ]
    );
    assert!(file.section_by_name(".debug_info").is_none());
}

#[test]
fn emitted_contents_are_the_copied_contents_concatenated() {
    let bytes = linked_bytes(&text_and_bss());
    let file = object::File::parse(&*bytes).unwrap();
    let mut emitted = Vec::new();
    for s in file.sections().filter(|s| s.kind() == SectionKind::Text) {
        emitted.extend_from_slice(s.data().unwrap());
    }
    let mut copied = CODE_A.to_vec();
    copied.extend_from_slice(&CODE_B);
    assert_eq!(emitted, copied);
}

#[test]
fn emitted_symbols_follow_their_sections() {
    let bytes = linked_bytes(&text_and_bss());
    let file = object::File::parse(&*bytes).unwrap();
    let texts: Vec<object::SectionIndex> =
        file.sections().filter(|s| s.kind() == SectionKind::Text).map(|s| s.index()).collect();
    let start = file.symbols().find(|s| s.name() == Ok("_start")).unwrap();
    assert_eq!(start.address(), 0);
    assert!(start.section() == object::SymbolSection::Section(texts[0]));
    let defined: Vec<_> =
        file.symbols().filter(|s| s.name() == Ok("foo") && !s.is_undefined()).collect();
    assert_eq!(defined.len(), 1);
    assert_eq!(defined[0].address(), 8);
    assert!(defined[0].section() == object::SymbolSection::Section(texts[1]));
    assert!(file.symbols().all(|s| s.name() != Ok("in_debug")));
}

#[test]
fn emitted_relocations_are_retargeted_and_dropped_with_their_symbols() {
    let bytes = linked_bytes(&text_and_bss());
    let file = object::File::parse(&*bytes).unwrap();
    let first = file.sections().find(|s| s.kind() == SectionKind::Text).unwrap();
    let relocations: Vec<_> = first.relocations().collect();
    assert_eq!(relocations.len(), 1);
    let (offset, relocation) = &relocations[0];
    assert_eq!(*offset, 4);
    assert!(relocation.kind() == RelocationKind::Elf(18));
    assert_eq!(relocation.addend(), 0);
    match relocation.target() {
        RelocationTarget::Symbol(index) => {
            let symbol = file.symbol_by_index(index).unwrap();
            assert_eq!(symbol.name(), Ok("foo"));
            assert!(symbol.is_undefined());
        },
        other => panic!("unexpected target {:?}", other),
    }
}

#[test]
fn linking_twice_gives_the_same_bytes() {
    assert_eq!(linked_bytes(&text_and_bss()), linked_bytes(&text_and_bss()));
}

#[test]
fn emitted_file_can_be_linked_again() {
    let bytes = linked_bytes(&text_and_bss());
    let mut again = Manifest::new();
    again.add(&String::from("out.o"), &bytes).unwrap();
    let relinked = link(&script(&[("text", &[".text*"])]), &again).unwrap();
    assert_eq!(relinked.image.sections.len(), 2);
    assert_eq!(relinked.image.flags, FileFlags::Elf { e_flags: 0b00101 });
    emit(&relinked.image).unwrap();
}

#[test]
fn empty_image_is_emitted_with_zero_flags() {
    let bytes = emit(&Image::new()).unwrap();
    let file = object::File::parse(&*bytes).unwrap();
    assert!(file.flags() == object::FileFlags::Elf { e_flags: 0 });
    assert!(file.sections().all(|s| s.kind() == SectionKind::Metadata));
}

fn plain_section(name: &str) -> OutputSection {
    OutputSection {
        segment: String::new(),
        name: String::from(name),
        kind: SectionKind::Text,
        contents: SectionContents::Data(vec![1, 2, 3, 4]),
        align: 4,
        flags: SectionFlags::NoFlags,
    }
}

fn plain_symbol(name: &[u8], section: OutputSymbolSection) -> OutputSymbol {
    OutputSymbol {
        name: name.to_vec(),
        value: 0,
        size: 0,
        kind: SymbolKind::Data,
        scope: SymbolScope::Linkage,
        weak: false,
        section,
        flags: OutputSymbolFlags::NoFlags,
    }
}

fn plain_relocation(section: usize, symbol: SymbolRef) -> OutputRelocation {
    OutputRelocation {
        section,
        offset: 0,
        size: 32,
        kind: RelocationKind::Absolute,
        encoding: RelocationEncoding::Generic,
        symbol,
        addend: 0,
    }
}

fn image_of(
    sections: Vec<OutputSection>,
    symbols: Vec<OutputSymbol>,
    relocations: Vec<OutputRelocation>,
) -> Image {
    Image { sections, symbols, relocations, flags: FileFlags::Unset }
}

#[test]
fn relocation_against_a_section_symbol_is_emitted() {
    let image = image_of(
        vec![plain_section(".text"), plain_section(".text.b")],
        vec![plain_symbol(b"x", OutputSymbolSection::Section(1))],
        vec![
            plain_relocation(0, SymbolRef::SectionSymbol(1)),
            plain_relocation(1, SymbolRef::Symbol(0)),
        ],
    );
    assert_eq!(validate(&image), None);
    let bytes = emit(&image).unwrap();
    let file = object::File::parse(&*bytes).unwrap();
    let sections: Vec<_> = file.sections().filter(|s| s.kind() == SectionKind::Text).collect();
    let (_, first) = sections[0].relocations().next().unwrap();
    match first.target() {
        RelocationTarget::Symbol(index) => {
            let symbol = file.symbol_by_index(index).unwrap();
            assert!(symbol.kind() == SymbolKind::Section);
            assert!(symbol.section() == object::SymbolSection::Section(sections[1].index()));
        },
        other => panic!("unexpected target {:?}", other),
    }
    let (_, second) = sections[1].relocations().next().unwrap();
    match second.target() {
        RelocationTarget::Symbol(index) => {
            assert_eq!(file.symbol_by_index(index).unwrap().name(), Ok("x"));
        },
        other => panic!("unexpected target {:?}", other),
    }
}

#[test]
fn section_name_with_a_zero_byte_is_refused() {
    let image = image_of(vec![plain_section(".text"), plain_section(".te\0xt")], vec![], vec![]);
    assert_eq!(emit(&image), Err(EmitError::SectionName { section: 1 }));
}

#[test]
fn alignment_that_is_no_power_of_two_is_refused() {
    let mut zero = plain_section(".text");
    zero.align = 0;
    assert_eq!(
        emit(&image_of(vec![zero], vec![], vec![])),
        Err(EmitError::SectionAlignment { section: 0 })
    );
    let mut three = plain_section(".text");
    three.align = 3;
    assert_eq!(
        emit(&image_of(vec![plain_section(".a"), three], vec![], vec![])),
        Err(EmitError::SectionAlignment { section: 1 })
    );
}

#[test]
fn powers_of_two_are_alignments() {
    assert!(alignment_is_valid(1));
    assert!(alignment_is_valid(2));
    assert!(alignment_is_valid(4096));
    assert!(alignment_is_valid(1 << 63));
    assert!(!alignment_is_valid(0));
    assert!(!alignment_is_valid(3));
    assert!(!alignment_is_valid(6));
    assert!(!alignment_is_valid(u64::MAX));
}

#[test]
fn names_hold_no_zero_byte() {
    assert!(name_is_valid(&b"".to_vec()));
    assert!(name_is_valid(&b".text".to_vec()));
    assert!(!name_is_valid(&b"\0".to_vec()));
    assert!(!name_is_valid(&b"ab\0".to_vec()));
}

#[test]
fn contents_that_do_not_fit_the_kind_are_refused() {
    let mut hollow = plain_section(".text");
    hollow.contents = SectionContents::Uninitialized(8);
    assert_eq!(
        emit(&image_of(vec![hollow], vec![], vec![])),
        Err(EmitError::SectionContents { section: 0 })
    );
    let mut filled = plain_section(".bss");
    filled.kind = SectionKind::UninitializedData;
    assert_eq!(
        emit(&image_of(vec![filled], vec![], vec![])),
        Err(EmitError::SectionContents { section: 0 })
    );
}

#[test]
fn symbol_of_a_section_that_the_image_lacks_is_refused() {
    let image = image_of(
        vec![plain_section(".text")],
        vec![plain_symbol(b"x", OutputSymbolSection::Section(1))],
        vec![],
    );
    assert_eq!(emit(&image), Err(EmitError::SymbolHome { symbol: 0 }));
}

#[test]
fn symbol_name_with_a_zero_byte_is_refused() {
    let image = image_of(
        vec![],
        vec![
            plain_symbol(b"ok", OutputSymbolSection::Absolute),
            plain_symbol(b"a\0b", OutputSymbolSection::Absolute),
        ],
        vec![],
    );
    assert_eq!(emit(&image), Err(EmitError::SymbolName { symbol: 1 }));
}

#[test]
fn symbol_of_any_value_is_emitted() {
    for value in [0x3fff_ffff_ffff_ffffu64, 0xffff_ffff_8000_0000, u64::MAX] {
        let mut high = plain_symbol(b"x", OutputSymbolSection::Absolute);
        high.value = value;
        let bytes = emit(&image_of(vec![], vec![high], vec![])).unwrap();
        let file = object::File::parse(&*bytes).unwrap();
        let symbol = file.symbols().find(|s| s.name() == Ok("x")).unwrap();
        assert_eq!(symbol.address(), value);
    }
}

#[test]
fn section_symbol_without_a_section_is_refused() {
    let mut odd = plain_symbol(b"", OutputSymbolSection::Absolute);
    odd.kind = SymbolKind::Section;
    assert_eq!(
        emit(&image_of(vec![], vec![odd], vec![])),
        Err(EmitError::SymbolSection { symbol: 0 })
    );
}

#[test]
fn symbol_without_attribution_is_refused_unless_it_names_a_file() {
    let odd = plain_symbol(b"x", OutputSymbolSection::NoSection);
    assert_eq!(
        emit(&image_of(vec![], vec![odd], vec![])),
        Err(EmitError::SymbolSection { symbol: 0 })
    );
    let mut file = plain_symbol(b"a.c", OutputSymbolSection::NoSection);
    file.kind = SymbolKind::File;
    assert!(emit(&image_of(vec![], vec![file], vec![])).is_ok());
}

#[test]
fn defined_symbol_without_scope_is_refused() {
    let mut odd = plain_symbol(b"x", OutputSymbolSection::Absolute);
    odd.scope = SymbolScope::Unknown;
    assert_eq!(
        emit(&image_of(vec![], vec![odd], vec![])),
        Err(EmitError::SymbolScope { symbol: 0 })
    );
    let mut undefined = plain_symbol(b"x", OutputSymbolSection::Undefined);
    undefined.scope = SymbolScope::Unknown;
    assert!(emit(&image_of(vec![], vec![undefined], vec![])).is_ok());
}

#[test]
fn section_symbol_of_the_input_becomes_the_symbol_of_its_section() {
    let mut named = plain_symbol(b"", OutputSymbolSection::Section(0));
    named.kind = SymbolKind::Section;
    named.scope = SymbolScope::Compilation;
    let image = image_of(
        vec![plain_section(".text")],
        vec![named],
        vec![
            plain_relocation(0, SymbolRef::Symbol(0)),
            plain_relocation(0, SymbolRef::SectionSymbol(0)),
        ],
    );
    let bytes = emit(&image).unwrap();
    let file = object::File::parse(&*bytes).unwrap();
    let text = file.sections().find(|s| s.kind() == SectionKind::Text).unwrap();
    let targets: Vec<_> = text.relocations().map(|(_, r)| r.target()).collect();
    assert_eq!(targets.len(), 2);
    assert!(targets[0] == targets[1]);
    assert_eq!(file.symbols().filter(|s| s.kind() == SymbolKind::Section).count(), 1);
}

#[test]
fn relocation_that_dangles_is_refused() {
    let sections = || vec![plain_section(".text")];
    let symbols = || vec![plain_symbol(b"x", OutputSymbolSection::Absolute)];
    for (relocation, at) in [
        (plain_relocation(1, SymbolRef::Symbol(0)), 0),
        (plain_relocation(0, SymbolRef::Symbol(1)), 0),
        (plain_relocation(0, SymbolRef::SectionSymbol(1)), 0),
    ] {
        let image = image_of(sections(), symbols(), vec![relocation]);
        assert_eq!(emit(&image), Err(EmitError::RelocationTarget { relocation: at }));
    }
    let image = image_of(
        sections(),
        symbols(),
        vec![plain_relocation(0, SymbolRef::Symbol(0)), plain_relocation(2, SymbolRef::Symbol(0))],
    );
    assert_eq!(emit(&image), Err(EmitError::RelocationTarget { relocation: 1 }));
}

fn image_with_addend(symbol: OutputSymbol, addend: i64) -> Image {
    let mut relocation = plain_relocation(0, SymbolRef::Symbol(0));
    relocation.addend = addend;
    image_of(vec![plain_section(".text")], vec![symbol], vec![relocation])
}

#[test]
fn addend_that_cannot_take_the_value_of_its_symbol_is_refused() {
    let mut inside = plain_symbol(b"x", OutputSymbolSection::Section(0));
    inside.value = 8;
    assert_eq!(
        emit(&image_with_addend(plain_symbol_like(&inside), i64::MAX)),
        Err(EmitError::RelocationAddend { relocation: 0 })
    );
    assert_eq!(
        emit(&image_with_addend(plain_symbol_like(&inside), i64::MAX - 7)),
        Err(EmitError::RelocationAddend { relocation: 0 })
    );
    assert!(emit(&image_with_addend(plain_symbol_like(&inside), i64::MAX - 8)).is_ok());
    assert!(emit(&image_with_addend(plain_symbol_like(&inside), i64::MIN)).is_ok());
    let mut far = plain_symbol(b"x", OutputSymbolSection::Section(0));
    far.value = 0x8000_0000_0000_0000;
    assert_eq!(
        emit(&image_with_addend(far, 0)),
        Err(EmitError::RelocationAddend { relocation: 0 })
    );
}

fn plain_symbol_like(symbol: &OutputSymbol) -> OutputSymbol {
    OutputSymbol {
        name: symbol.name.clone(),
        value: symbol.value,
        size: symbol.size,
        kind: symbol.kind,
        scope: symbol.scope,
        weak: symbol.weak,
        section: symbol.section,
        flags: symbol.flags,
    }
}

#[test]
fn addend_against_a_symbol_outside_any_section_is_not_bounded() {
    let mut absolute = plain_symbol(b"x", OutputSymbolSection::Absolute);
    absolute.value = u64::MAX;
    assert!(emit(&image_with_addend(absolute, i64::MAX)).is_ok());
    let undefined = plain_symbol(b"x", OutputSymbolSection::Undefined);
    assert!(emit(&image_with_addend(undefined, i64::MIN)).is_ok());
}

#[test]
fn relocation_against_a_preemptible_symbol_is_referred_to_its_section() {
    let mut function = plain_symbol(b"f", OutputSymbolSection::Section(1));
    function.kind = SymbolKind::Text;
    function.scope = SymbolScope::Dynamic;
    function.value = 8;
    let mut relocation = plain_relocation(0, SymbolRef::Symbol(0));
    relocation.size = 64;
    relocation.addend = 4;
    let image = image_of(
        vec![plain_section(".text"), plain_section(".text.f")],
        vec![function],
        vec![relocation],
    );
    let bytes = emit(&image).unwrap();
    let file = object::File::parse(&*bytes).unwrap();
    let sections: Vec<_> = file.sections().filter(|s| s.kind() == SectionKind::Text).collect();
    let (_, emitted) = sections[0].relocations().next().unwrap();
    assert_eq!(emitted.addend(), 12);
    match emitted.target() {
        RelocationTarget::Symbol(index) => {
            let symbol = file.symbol_by_index(index).unwrap();
            assert!(symbol.kind() == SymbolKind::Section);
            assert!(symbol.section() == object::SymbolSection::Section(sections[1].index()));
        },
        other => panic!("unexpected target {:?}", other),
    }
}

#[test]
fn image_flags_of_another_format_are_refused() {
    let mut image = Image::new();
    image.flags = FileFlags::Other;
    assert_eq!(emit(&image), Err(EmitError::FileFlags));
}

#[test]
fn faults_are_reported_sections_first() {
    let mut crooked = plain_section(".text");
    crooked.align = 12;
    let image = image_of(
        vec![crooked],
        vec![plain_symbol(b"\0", OutputSymbolSection::Absolute)],
        vec![plain_relocation(9, SymbolRef::Symbol(9))],
    );
    assert_eq!(validate(&image), Some(EmitError::SectionAlignment { section: 0 }));
}

#[test]
fn relocation_that_the_writer_cannot_express_is_refused() {
    let mut relocation = plain_relocation(0, SymbolRef::Symbol(0));
    relocation.kind = RelocationKind::Got;
    let image = image_of(
        vec![plain_section(".text")],
        vec![plain_symbol(b"x", OutputSymbolSection::Absolute)],
        vec![relocation],
    );
    assert_eq!(validate(&image), None);
    assert_eq!(emit(&image), Err(EmitError::Refused));
}

#[test]
fn output_needs_a_link_script() {
    let context = itsylinker::context::Context::new();
    assert_eq!(
        itsylinker::output::write(&context, &manifest()),
        Err(itsylinker::output::WriteError::NoLinkScript)
    );
}

#[test]
fn output_is_the_emitted_link() {
    let mut context = itsylinker::context::Context::new();
    context.set_config(text_and_bss());
    let bytes = itsylinker::output::write(&context, &manifest()).unwrap();
    assert_eq!(bytes, linked_bytes(&text_and_bss()));
}

#[test]
fn relocation_against_the_symbol_of_a_dropped_section_is_dropped() {
    let mut elf = Object::new(BinaryFormat::Elf, Architecture::Riscv64, Endianness::Little);
    let text = elf.add_section(Vec::new(), b".text".to_vec(), SectionKind::Text);
    elf.append_section_data(text, &CODE_A, 4);
    let data = elf.add_section(Vec::new(), b".data".to_vec(), SectionKind::Data);
    elf.append_section_data(data, &[1, 2, 3, 4], 4);
    let symbol = elf.section_symbol(data);
    elf.add_relocation(
        text,
        Relocation {
            offset: 0,
            size: 0,
            kind: RelocationKind::Elf(18),
            encoding: RelocationEncoding::Generic,
            symbol,
            addend: 0,
        },
    )
    .unwrap();
    let mut manifest = Manifest::new();
    manifest.add(&String::from("a.o"), &elf.write().unwrap()).unwrap();
    let linked = link(&script(&[("text", &[".text*"])]), &manifest).unwrap();
    assert_eq!(linked.image.sections.len(), 1);
    assert!(linked.image.relocations.is_empty());
}

#[test]
fn output_reports_why_the_link_ended() {
    let mut elf = Object::new(BinaryFormat::Elf, Architecture::Riscv64, Endianness::Little);
    let text = elf.add_section(Vec::new(), b".text.f".to_vec(), SectionKind::Text);
    elf.append_section_data(text, &CODE_A, 4);
    let symbol = elf.add_symbol(global("f", SymbolSection::Section(text), 0));
    elf.add_comdat(object::write::Comdat {
        kind: object::ComdatKind::Any,
        symbol,
        sections: vec![text],
    });
    let mut manifest = Manifest::new();
    manifest.add(&String::from("a.o"), &elf.write().unwrap()).unwrap();
    assert_eq!(manifest.raw_objects()[0].object.comdats, 1);
    let mut context = itsylinker::context::Context::new();
    context.set_config(script(&[("text", &[".text*"])]));
    assert_eq!(
        itsylinker::output::write(&context, &manifest),
        Err(itsylinker::output::WriteError::Link(itsylinker::error::LinkError::Comdat {
            object: 0,
            count: 1
        }))
    );
}
