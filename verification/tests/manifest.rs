use itsylinker::input::InputObject;
use itsylinker::flags::FileFlags;
use itsylinker::manifest::{
    classify, expand, path_has_extension, FileKind, Manifest, ManifestEntry, ManifestError,
};
use itsylinker::reader::LoadError;
use object::write::{Object, StandardSection, Symbol, SymbolSection};
use object::{Architecture, BinaryFormat, Endianness, SymbolKind, SymbolScope};

fn object_bytes(architecture: Architecture, symbol: &str) -> Vec<u8> {
    let mut elf = Object::new(BinaryFormat::Elf, architecture, Endianness::Little);
    let text = elf.section_id(StandardSection::Text);
    elf.append_section_data(text, &[0x13, 0, 0, 0], 4);
    elf.add_symbol(Symbol {
        name: symbol.as_bytes().to_vec(),
        value: 0,
        size: 4,
        kind: SymbolKind::Text,
        scope: SymbolScope::Dynamic,
        weak: false,
        section: SymbolSection::Section(text),
        flags: object::SymbolFlags::None,
    });
    elf.write().unwrap()
}

fn archive_of(members: &[(&str, &[u8])]) -> Vec<u8> {
    let mut bytes = b"!<arch>\n".to_vec();
    for (name, data) in members {
        let header = format!(
            "{:<16}{:<12}{:<6}{:<6}{:<8}{:<10}`\n",
            format!("{}/", name),
            0,
            0,
            0,
            644,
            data.len()
        );
        assert_eq!(header.len(), 60);
        bytes.extend_from_slice(header.as_bytes());
        bytes.extend_from_slice(data);
        if data.len() % 2 == 1 {
            bytes.push(b'\n');
        }
    }
    bytes
}

fn identifiers(manifest: &Manifest) -> Vec<String> {
    manifest.raw_objects().iter().map(|e| e.identifier.clone()).collect()
}

fn has_symbol(object: &InputObject, name: &str) -> bool {
    object.symbols.iter().any(|s| s.name.as_deref() == Some(name.as_bytes()))
}

fn empty_object() -> InputObject {
    InputObject {
        flags: FileFlags::Unset,
        comdats: 0,
        sections: Vec::new(),
        symbols: Vec::new(),
    }
}

#[test]
fn extension_decides_the_kind_of_file() {
    assert!(classify("a.o") == FileKind::Object);
    assert!(classify("dir/a.o") == FileKind::Object);
    assert!(classify("libx.rlib") == FileKind::Archive);
    assert!(classify("libx.rlib/m.o") == FileKind::Object);
    assert!(classify("lib.rmeta") == FileKind::Metadata);
    assert!(classify("a.out") == FileKind::Unrecognized);
    assert!(classify("a") == FileKind::Unrecognized);
    assert!(classify("") == FileKind::Unrecognized);
    assert!(classify("a.O") == FileKind::Unrecognized);
    assert!(classify("a.oo") == FileKind::Unrecognized);
    assert!(classify("a.o.txt") == FileKind::Unrecognized);
}

#[test]
fn a_name_that_is_only_an_extension_has_none() {
    assert!(classify(".o") == FileKind::Unrecognized);
    assert!(classify("dir/.o") == FileKind::Unrecognized);
    assert!(classify(".rlib") == FileKind::Unrecognized);
    assert!(classify("x/.rmeta") == FileKind::Unrecognized);
    assert!(classify("o") == FileKind::Unrecognized);
}

#[test]
fn extension_is_what_follows_the_last_dot() {
    assert!(path_has_extension("a.tar.o", "o"));
    assert!(path_has_extension("a..o", "o"));
    assert!(!path_has_extension("a.o", "rlib"));
    assert!(!path_has_extension("ao", "o"));
    assert!(!path_has_extension("a.o/", "o"));
    assert!(path_has_extension("x.y", "y"));
    assert!(!path_has_extension("x.y", ""));
    assert!(path_has_extension("x.", ""));
}

#[test]
fn object_file_is_added_under_its_path() {
    let mut manifest = Manifest::new();
    manifest.add(&String::from("a.o"), &object_bytes(Architecture::Riscv64, "foo")).unwrap();
    assert_eq!(manifest.len(), 1);
    assert_eq!(identifiers(&manifest), vec!["a.o"]);
    assert!(has_symbol(&manifest.raw_objects()[0].object, "foo"));
    assert!(manifest.get("a.o").is_some());
    assert!(manifest.get("b.o").is_none());
    assert_eq!(manifest.find("a.o"), 0);
    assert_eq!(manifest.find("b.o"), 1);
}

#[test]
fn objects_are_kept_in_the_order_in_which_they_are_added() {
    let mut manifest = Manifest::new();
    for name in ["z.o", "a.o", "m.o"] {
        manifest.add(&String::from(name), &object_bytes(Architecture::Riscv64, name)).unwrap();
    }
    assert_eq!(identifiers(&manifest), vec!["z.o", "a.o", "m.o"]);
}

#[test]
fn duplicate_identifier_overwrites_in_place() {
    let mut manifest = Manifest::new();
    manifest.add(&String::from("a.o"), &object_bytes(Architecture::Riscv64, "old")).unwrap();
    manifest.add(&String::from("b.o"), &object_bytes(Architecture::Riscv64, "other")).unwrap();
    manifest.add(&String::from("a.o"), &object_bytes(Architecture::Riscv64, "new")).unwrap();
    assert_eq!(identifiers(&manifest), vec!["a.o", "b.o"]);
    assert!(has_symbol(manifest.get("a.o").unwrap(), "new"));
    assert!(!has_symbol(manifest.get("a.o").unwrap(), "old"));
}

#[test]
fn add_object_overwrites_in_place() {
    let mut manifest = Manifest::new();
    manifest.add_object(String::from("a.o"), empty_object());
    manifest.add_object(String::from("b.o"), empty_object());
    let mut changed = empty_object();
    changed.comdats = 5;
    manifest.add_object(String::from("a.o"), changed);
    assert_eq!(identifiers(&manifest), vec!["a.o", "b.o"]);
    assert_eq!(manifest.raw_objects()[0].object.comdats, 5);
}

#[test]
fn add_entries_adds_one_by_one() {
    let mut manifest = Manifest::new();
    manifest.add_object(String::from("b.o"), empty_object());
    let mut second = empty_object();
    second.comdats = 2;
    manifest.add_entries(vec![
        ManifestEntry { identifier: String::from("a.o"), object: empty_object() },
        ManifestEntry { identifier: String::from("b.o"), object: empty_object() },
        ManifestEntry { identifier: String::from("a.o"), object: second },
    ]);
    assert_eq!(identifiers(&manifest), vec!["b.o", "a.o"]);
    assert_eq!(manifest.raw_objects()[1].object.comdats, 2);
}

#[test]
fn archive_members_are_named_by_pseudo_paths() {
    let member = object_bytes(Architecture::Riscv64, "bar");
    let archive = archive_of(&[("m.o", &member)]);
    let mut manifest = Manifest::new();
    manifest.add(&String::from("libx.rlib"), &archive).unwrap();
    assert_eq!(identifiers(&manifest), vec!["libx.rlib/m.o"]);
    assert!(has_symbol(&manifest.raw_objects()[0].object, "bar"));
}

#[test]
fn archive_members_are_added_in_archive_order() {
    let one = object_bytes(Architecture::Riscv64, "one");
    let two = object_bytes(Architecture::Riscv64, "two");
    let archive = archive_of(&[("b.o", &two), ("a.o", &one)]);
    let mut manifest = Manifest::new();
    manifest.add(&String::from("dir/libx.rlib"), &archive).unwrap();
    assert_eq!(identifiers(&manifest), vec!["dir/libx.rlib/b.o", "dir/libx.rlib/a.o"]);
    assert!(has_symbol(&manifest.raw_objects()[0].object, "two"));
    assert!(has_symbol(&manifest.raw_objects()[1].object, "one"));
}

#[test]
fn metadata_members_are_skipped() {
    let member = object_bytes(Architecture::Riscv64, "bar");
    let archive = archive_of(&[("lib.rmeta", b"rust metadata, no object"), ("m.o", &member)]);
    let mut manifest = Manifest::new();
    manifest.add(&String::from("libx.rlib"), &archive).unwrap();
    assert_eq!(identifiers(&manifest), vec!["libx.rlib/m.o"]);
}

#[test]
fn metadata_file_adds_nothing() {
    let mut manifest = Manifest::new();
    manifest.add(&String::from("lib.rmeta"), b"whatever").unwrap();
    assert_eq!(manifest.len(), 0);
}

#[test]
fn nested_archives_are_expanded() {
    let deep = object_bytes(Architecture::Riscv64, "deep");
    let top = object_bytes(Architecture::Riscv64, "top");
    let inner = archive_of(&[("lib.rmeta", b"meta"), ("d.o", &deep)]);
    let outer = archive_of(&[("t.o", &top), ("inner.rlib", &inner)]);
    let mut manifest = Manifest::new();
    manifest.add(&String::from("outer.rlib"), &outer).unwrap();
    assert_eq!(identifiers(&manifest), vec!["outer.rlib/t.o", "outer.rlib/inner.rlib/d.o"]);
    assert!(has_symbol(&manifest.raw_objects()[0].object, "top"));
    assert!(has_symbol(&manifest.raw_objects()[1].object, "deep"));
}

#[test]
fn empty_archive_adds_nothing() {
    let mut manifest = Manifest::new();
    manifest.add(&String::from("libx.rlib"), &archive_of(&[])).unwrap();
    assert_eq!(manifest.len(), 0);
}

#[test]
fn unrecognized_file_is_refused() {
    let mut manifest = Manifest::new();
    let error = manifest
        .add(&String::from("a.txt"), &object_bytes(Architecture::Riscv64, "foo"))
        .unwrap_err();
    match error {
        ManifestError::UnrecognizedFile { identifier } => assert_eq!(identifier, "a.txt"),
        other => panic!("unexpected error {:?}", other),
    }
    assert_eq!(manifest.len(), 0);
}

#[test]
fn unrecognized_archive_member_is_refused() {
    let member = object_bytes(Architecture::Riscv64, "bar");
    let archive = archive_of(&[("m.o", &member), ("notes.txt", b"hello")]);
    let mut manifest = Manifest::new();
    let error = manifest.add(&String::from("libx.rlib"), &archive).unwrap_err();
    match error {
        ManifestError::UnrecognizedFile { identifier } => {
            assert_eq!(identifier, "libx.rlib/notes.txt")
        },
        other => panic!("unexpected error {:?}", other),
    }
    // Nothing of a file that is refused is added.
    assert_eq!(manifest.len(), 0);
}

#[test]
fn object_for_another_architecture_is_refused_with_its_architecture() {
    let mut manifest = Manifest::new();
    let error = manifest
        .add(&String::from("a.o"), &object_bytes(Architecture::X86_64, "foo"))
        .unwrap_err();
    match &error {
        ManifestError::BadObject { identifier, reason } => {
            assert_eq!(identifier, "a.o");
            assert!(matches!(reason, LoadError::UnsupportedArchitecture(Architecture::X86_64)));
        },
        other => panic!("unexpected error {:?}", other),
    }
    assert!(format!("{:?}", error).contains("X86_64"));
    assert_eq!(manifest.len(), 0);
}

#[test]
fn bad_object_in_an_archive_is_refused_under_its_pseudo_path() {
    let archive = archive_of(&[("m.o", b"no object at all")]);
    let mut manifest = Manifest::new();
    match manifest.add(&String::from("libx.rlib"), &archive).unwrap_err() {
        ManifestError::BadObject { identifier, reason } => {
            assert_eq!(identifier, "libx.rlib/m.o");
            assert!(matches!(reason, LoadError::Unparsed));
        },
        other => panic!("unexpected error {:?}", other),
    }
}

#[test]
fn file_that_is_no_archive_is_refused() {
    let mut manifest = Manifest::new();
    match manifest.add(&String::from("libx.rlib"), b"no archive").unwrap_err() {
        ManifestError::BadArchive { identifier } => assert_eq!(identifier, "libx.rlib"),
        other => panic!("unexpected error {:?}", other),
    }
}

#[test]
fn truncated_archive_member_is_refused() {
    let member = object_bytes(Architecture::Riscv64, "bar");
    let mut archive = archive_of(&[("m.o", &member)]);
    archive.truncate(archive.len() - 10);
    let mut manifest = Manifest::new();
    match manifest.add(&String::from("libx.rlib"), &archive).unwrap_err() {
        ManifestError::BadMember { identifier, member } => {
            assert_eq!(identifier, "libx.rlib");
            assert_eq!(member, 0);
        },
        other => panic!("unexpected error {:?}", other),
    }
}

#[test]
fn expand_puts_found_objects_behind_those_found_before() {
    let member = object_bytes(Architecture::Riscv64, "bar");
    let archive = archive_of(&[("m.o", &member)]);
    let mut found = vec![ManifestEntry { identifier: String::from("first.o"), object: empty_object() }];
    expand(&mut found, String::from("libx.rlib"), &archive).unwrap();
    let names: Vec<&str> = found.iter().map(|e| e.identifier.as_str()).collect();
    assert_eq!(names, vec!["first.o", "libx.rlib/m.o"]);
}
