use itsylinker::config::{Config, Output, Section, SectionTable};
use itsylinker::error::{ErrorClass, LinkError};
use itsylinker::flags::FileFlags;
use itsylinker::gather::{
    standard_section_name, standard_section_segment, Collection, ManifestSection,
    SectionSegment, STANDARD_SECTION_COUNT,
};
use itsylinker::input::{InputObject, InputSection, SectionFlags};
use itsylinker::manifest::Manifest;
use object::SectionKind;

fn section(name: &str, kind: SectionKind) -> InputSection {
    InputSection {
        name: Some(String::from(name)),
        segment: Some(String::new()),
        kind,
        data: Some(vec![0x13, 0, 0, 0]),
        size: 4,
        align: 4,
        address: 0,
        flags: SectionFlags::NoFlags,
        relocations: Vec::new(),
    }
}

fn object_with(flags: FileFlags, sections: Vec<InputSection>) -> InputObject {
    InputObject { flags, comdats: 0, sections, symbols: Vec::new() }
}

fn manifest_of(objects: Vec<(&str, InputObject)>) -> Manifest {
    let mut manifest = Manifest::new();
    for (identifier, object) in objects {
        manifest.add_object(String::from(identifier), object);
    }
    manifest
}

fn script(buckets: &[(&str, &[&str])]) -> Config {
    let mut table = SectionTable::new();
    for (name, patterns) in buckets {
        let includes = patterns.iter().map(|p| String::from(*p)).collect();
        table.insert(String::from(*name), Section::new(includes, None, None));
    }
    Config::new(Output::new(None, None, None, None, None, None), table)
}

fn kept(collection: &Collection) -> Vec<(usize, usize, usize)> {
    (0..collection.len())
        .map(|i| {
            let s = collection.section(i).unwrap();
            (s.object, s.index, s.parent)
        })
        .collect()
}

fn plain() -> FileFlags {
    FileFlags::Elf { e_flags: 0 }
}

#[test]
fn standard_sections_are_text_rodata_data_bss() {
    assert_eq!(STANDARD_SECTION_COUNT, 4);
    assert_eq!(standard_section_name(0), "text");
    assert_eq!(standard_section_name(1), "rodata");
    assert_eq!(standard_section_name(2), "data");
    assert_eq!(standard_section_name(3), "bss");
    assert!(standard_section_segment(0) == SectionSegment::LoadableReadExec);
    assert!(standard_section_segment(1) == SectionSegment::LoadableRead);
    assert!(standard_section_segment(2) == SectionSegment::LoadableReadWrite);
    assert!(standard_section_segment(3) == SectionSegment::LoadableReadWrite);
}

#[test]
fn pattern_order_decides_the_layout() {
    let object = object_with(
        plain(),
        vec![section(".text", SectionKind::Text), section(".entry", SectionKind::Text)],
    );
    let manifest = manifest_of(vec![("a.o", object)]);
    let config = script(&[("text", &[".entry*", ".text*"])]);
    let collection = Collection::new(&config, &manifest).unwrap();
    assert_eq!(kept(&collection), vec![(0, 1, 0), (0, 0, 0)]);
}

#[test]
fn objects_are_visited_in_manifest_order() {
    let a = object_with(plain(), vec![section(".text", SectionKind::Text)]);
    let b = object_with(plain(), vec![section(".text", SectionKind::Text)]);
    let manifest = manifest_of(vec![("a.o", a), ("b.o", b)]);
    let config = script(&[("text", &[".text*"])]);
    let collection = Collection::new(&config, &manifest).unwrap();
    assert_eq!(kept(&collection), vec![(0, 0, 0), (1, 0, 0)]);
}

#[test]
fn order_is_pattern_then_object_then_section_index() {
    let a = object_with(
        plain(),
        vec![
            section(".text.b", SectionKind::Text),
            section(".init", SectionKind::Text),
            section(".text.a", SectionKind::Text),
        ],
    );
    let b = object_with(
        plain(),
        vec![section(".text", SectionKind::Text), section(".init.x", SectionKind::Text)],
    );
    let manifest = manifest_of(vec![("a.o", a), ("b.o", b)]);
    let config = script(&[("text", &[".init*", ".text*"])]);
    let collection = Collection::new(&config, &manifest).unwrap();
    assert_eq!(
        kept(&collection),
        vec![(0, 1, 0), (1, 1, 0), (0, 0, 0), (0, 2, 0), (1, 0, 0)]
    );
}

#[test]
fn buckets_are_filled_in_their_fixed_order() {
    let object = object_with(
        plain(),
        vec![
            section(".bss", SectionKind::UninitializedData),
            section(".data", SectionKind::Data),
            section(".rodata", SectionKind::ReadOnlyData),
            section(".text", SectionKind::Text),
        ],
    );
    let manifest = manifest_of(vec![("a.o", object)]);
    let config = script(&[
        ("bss", &[".bss*"]),
        ("data", &[".data*"]),
        ("rodata", &[".rodata*"]),
        ("text", &[".text*"]),
    ]);
    let mut collection = Collection::new(&config, &manifest).unwrap();
    assert_eq!(kept(&collection), vec![(0, 3, 0), (0, 2, 1), (0, 1, 2), (0, 0, 3)]);
    collection.merge();
    assert_eq!(collection.bucket(0), &vec![0]);
    assert_eq!(collection.bucket(1), &vec![1]);
    assert_eq!(collection.bucket(2), &vec![2]);
    assert_eq!(collection.bucket(3), &vec![3]);
}

#[test]
fn buckets_are_empty_before_the_merge() {
    let object = object_with(plain(), vec![section(".text", SectionKind::Text)]);
    let manifest = manifest_of(vec![("a.o", object)]);
    let collection = Collection::new(&config_text(), &manifest).unwrap();
    for parent in 0..STANDARD_SECTION_COUNT {
        assert!(collection.bucket(parent).is_empty());
    }
}

fn config_text() -> Config {
    script(&[("text", &[".text*"])])
}

#[test]
fn merge_keeps_emission_order_within_a_bucket() {
    let a = object_with(
        plain(),
        vec![
            section(".text", SectionKind::Text),
            section(".data", SectionKind::Data),
            section(".text.x", SectionKind::Text),
        ],
    );
    let b = object_with(
        plain(),
        vec![section(".data", SectionKind::Data), section(".text", SectionKind::Text)],
    );
    let manifest = manifest_of(vec![("a.o", a), ("b.o", b)]);
    let config = script(&[("text", &[".text*"]), ("data", &[".data*"])]);
    let mut collection = Collection::new(&config, &manifest).unwrap();
    collection.merge();
    assert_eq!(
        kept(&collection),
        vec![(0, 0, 0), (0, 2, 0), (1, 1, 0), (0, 1, 2), (1, 0, 2)]
    );
    assert_eq!(collection.bucket(0), &vec![0, 1, 2]);
    assert!(collection.bucket(1).is_empty());
    assert_eq!(collection.bucket(2), &vec![3, 4]);
    assert!(collection.bucket(3).is_empty());
}

#[test]
fn merging_twice_gives_the_same_buckets() {
    let object = object_with(plain(), vec![section(".text", SectionKind::Text)]);
    let manifest = manifest_of(vec![("a.o", object)]);
    let mut collection = Collection::new(&config_text(), &manifest).unwrap();
    collection.merge();
    collection.merge();
    assert_eq!(collection.bucket(0), &vec![0]);
}

#[test]
fn missing_text_table_keeps_no_text() {
    let object = object_with(
        plain(),
        vec![section(".text", SectionKind::Text), section(".data", SectionKind::Data)],
    );
    let manifest = manifest_of(vec![("a.o", object)]);
    let config = script(&[("data", &[".data*"])]);
    let mut collection = Collection::new(&config, &manifest).unwrap();
    collection.merge();
    assert_eq!(kept(&collection), vec![(0, 1, 2)]);
    assert!(collection.bucket(0).is_empty());
}

#[test]
fn tables_of_other_names_are_not_looked_at() {
    let object = object_with(plain(), vec![section(".text", SectionKind::Text)]);
    let manifest = manifest_of(vec![("a.o", object)]);
    let config = script(&[("code", &["*"])]);
    let collection = Collection::new(&config, &manifest).unwrap();
    assert_eq!(collection.len(), 0);
    assert_eq!(collection.e_flags(), FileFlags::Unset);
}

#[test]
fn star_keeps_every_section_but_metadata() {
    let object = object_with(
        plain(),
        vec![
            section("", SectionKind::Metadata),
            section(".text", SectionKind::Text),
            section(".symtab", SectionKind::Metadata),
            section(".debug_info", SectionKind::Debug),
        ],
    );
    let manifest = manifest_of(vec![("a.o", object)]);
    let config = script(&[("text", &["*"])]);
    let collection = Collection::new(&config, &manifest).unwrap();
    assert_eq!(kept(&collection), vec![(0, 1, 0), (0, 3, 0)]);
}

#[test]
fn exact_pattern_keeps_only_the_section_of_that_name() {
    let object = object_with(
        plain(),
        vec![
            section(".bss", SectionKind::UninitializedData),
            section(".bss.x", SectionKind::UninitializedData),
        ],
    );
    let manifest = manifest_of(vec![("a.o", object)]);
    let config = script(&[("bss", &[".bss"])]);
    let collection = Collection::new(&config, &manifest).unwrap();
    assert_eq!(kept(&collection), vec![(0, 0, 3)]);
}

#[test]
fn a_section_is_kept_once_under_its_first_pattern() {
    let object = object_with(plain(), vec![section(".text.hot", SectionKind::Text)]);
    let manifest = manifest_of(vec![("a.o", object)]);
    let config = script(&[("text", &[".text*", "*hot", ".text.hot"])]);
    let collection = Collection::new(&config, &manifest).unwrap();
    assert_eq!(kept(&collection), vec![(0, 0, 0)]);
}

#[test]
fn a_section_is_kept_once_under_its_first_bucket() {
    let object = object_with(
        plain(),
        vec![section(".text", SectionKind::Text), section(".data", SectionKind::Data)],
    );
    let manifest = manifest_of(vec![("a.o", object)]);
    let config = script(&[("text", &[".text"]), ("data", &["*"])]);
    let collection = Collection::new(&config, &manifest).unwrap();
    assert_eq!(kept(&collection), vec![(0, 0, 0), (0, 1, 2)]);
}

#[test]
fn unmatched_sections_are_dropped() {
    let object = object_with(
        plain(),
        vec![section(".text", SectionKind::Text), section(".debug_line", SectionKind::Debug)],
    );
    let manifest = manifest_of(vec![("a.o", object)]);
    let collection = Collection::new(&config_text(), &manifest).unwrap();
    assert_eq!(kept(&collection), vec![(0, 0, 0)]);
}

#[test]
fn flags_of_contributing_objects_are_merged() {
    let p = object_with(
        FileFlags::Elf { e_flags: 0b00001 },
        vec![section(".text", SectionKind::Text)],
    );
    let q = object_with(
        FileFlags::Elf { e_flags: 0b00100 },
        vec![section(".text", SectionKind::Text)],
    );
    let manifest = manifest_of(vec![("p.o", p), ("q.o", q)]);
    let collection = Collection::new(&config_text(), &manifest).unwrap();
    assert_eq!(collection.e_flags(), FileFlags::Elf { e_flags: 0b00101 });
}

#[test]
fn flags_of_objects_without_kept_sections_are_left_out() {
    let p = object_with(
        FileFlags::Elf { e_flags: 0b00001 },
        vec![section(".text", SectionKind::Text)],
    );
    let q = object_with(
        FileFlags::Elf { e_flags: 0b11000 },
        vec![section(".data", SectionKind::Data)],
    );
    let manifest = manifest_of(vec![("p.o", p), ("q.o", q)]);
    let collection = Collection::new(&config_text(), &manifest).unwrap();
    assert_eq!(collection.e_flags(), FileFlags::Elf { e_flags: 0b00001 });
}

#[test]
fn nothing_kept_leaves_the_flags_unset() {
    let p = object_with(
        FileFlags::Elf { e_flags: 0b00001 },
        vec![section(".data", SectionKind::Data)],
    );
    let manifest = manifest_of(vec![("p.o", p)]);
    let collection = Collection::new(&config_text(), &manifest).unwrap();
    assert_eq!(collection.len(), 0);
    assert_eq!(collection.e_flags(), FileFlags::Unset);
}

#[test]
fn comdat_groups_are_fatal() {
    let mut object = object_with(plain(), vec![section(".text", SectionKind::Text)]);
    object.comdats = 2;
    let good = object_with(plain(), vec![section(".text", SectionKind::Text)]);
    let manifest = manifest_of(vec![("good.o", good), ("bad.o", object)]);
    let error = Collection::new(&config_text(), &manifest).unwrap_err();
    assert_eq!(error, LinkError::Comdat { object: 1, count: 2 });
    assert!(error.class() == ErrorClass::Policy);
    assert_eq!(error.object(), Some(1));
}

#[test]
fn comdat_groups_are_fatal_even_where_nothing_matches() {
    let mut object = object_with(plain(), vec![section(".data", SectionKind::Data)]);
    object.comdats = 1;
    let manifest = manifest_of(vec![("bad.o", object)]);
    let error = Collection::new(&config_text(), &manifest).unwrap_err();
    assert_eq!(error, LinkError::Comdat { object: 0, count: 1 });
}

#[test]
fn objects_are_not_visited_without_patterns() {
    let mut object = object_with(plain(), vec![section(".text", SectionKind::Text)]);
    object.comdats = 1;
    let manifest = manifest_of(vec![("bad.o", object)]);
    let config = script(&[("text", &[])]);
    let collection = Collection::new(&config, &manifest).unwrap();
    assert_eq!(collection.len(), 0);
}

#[test]
fn unreadable_section_name_is_fatal() {
    let mut nameless = section(".data", SectionKind::Data);
    nameless.name = None;
    let object = object_with(plain(), vec![section(".text", SectionKind::Text), nameless]);
    let manifest = manifest_of(vec![("a.o", object)]);
    let error = Collection::new(&config_text(), &manifest).unwrap_err();
    assert_eq!(error, LinkError::UnreadableSectionName { object: 0, section: 1 });
    assert!(error.class() == ErrorClass::Format);
}

#[test]
fn unknown_file_flags_are_fatal_for_a_contributing_object() {
    let object = object_with(FileFlags::Other, vec![section(".text", SectionKind::Text)]);
    let manifest = manifest_of(vec![("a.o", object)]);
    let error = Collection::new(&config_text(), &manifest).unwrap_err();
    assert_eq!(error, LinkError::UnsupportedFileFlags { object: 0 });
}

#[test]
fn unknown_file_flags_do_not_matter_where_nothing_is_kept() {
    let object = object_with(FileFlags::Other, vec![section(".data", SectionKind::Data)]);
    let manifest = manifest_of(vec![("a.o", object)]);
    let collection = Collection::new(&config_text(), &manifest).unwrap();
    assert_eq!(collection.len(), 0);
}

#[test]
fn gathering_twice_gives_equal_results() {
    let a = object_with(
        FileFlags::Elf { e_flags: 0b00101 },
        vec![section(".text", SectionKind::Text), section(".data", SectionKind::Data)],
    );
    let b = object_with(
        FileFlags::Elf { e_flags: 0b01010 },
        vec![section(".text.b", SectionKind::Text)],
    );
    let manifest = manifest_of(vec![("a.o", a), ("b.o", b)]);
    let config = script(&[("text", &[".text*"]), ("data", &["*"])]);
    let mut first = Collection::new(&config, &manifest).unwrap();
    let mut second = Collection::new(&config, &manifest).unwrap();
    first.merge();
    second.merge();
    assert_eq!(kept(&first), kept(&second));
    assert_eq!(first.e_flags(), second.e_flags());
    for parent in 0..STANDARD_SECTION_COUNT {
        assert_eq!(first.bucket(parent), second.bucket(parent));
    }
}

#[test]
fn section_beyond_the_kept_ones_is_none() {
    let object = object_with(plain(), vec![section(".text", SectionKind::Text)]);
    let manifest = manifest_of(vec![("a.o", object)]);
    let collection = Collection::new(&config_text(), &manifest).unwrap();
    assert_eq!(
        collection.section(0),
        Some(ManifestSection { object: 0, index: 0, parent: 0 })
    );
    assert_eq!(collection.section(1), None);
}

#[test]
fn kept_section_at_a_position_is_the_section_kept_there() {
    let object = object_with(
        plain(),
        vec![section(".data", SectionKind::Data), section(".text", SectionKind::Text)],
    );
    let manifest = manifest_of(vec![("a.o", object)]);
    let config = script(&[("text", &[".text*"]), ("data", &[".data*"])]);
    let collection = Collection::new(&config, &manifest).unwrap();
    assert_eq!(collection.kept_section(0), ManifestSection { object: 0, index: 1, parent: 0 });
    assert_eq!(collection.kept_section(1), ManifestSection { object: 0, index: 0, parent: 2 });
}
