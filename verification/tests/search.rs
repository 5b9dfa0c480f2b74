use itsylinker::layout::align_up_to;
use itsylinker::search::{join, Paths};

fn names(list: Vec<String>) -> Vec<String> {
    list
}

#[test]
fn name_is_put_behind_the_directory() {
    assert_eq!(join("lib", "a.o"), "lib/a.o");
    assert_eq!(join("/usr/lib", "libc.rlib"), "/usr/lib/libc.rlib");
    assert_eq!(join("libx.rlib", "m.o"), "libx.rlib/m.o");
    assert_eq!(join("a/b", "c/d.o"), "a/b/c/d.o");
}

#[test]
fn no_second_separator_is_put_behind_one() {
    assert_eq!(join("lib/", "a.o"), "lib/a.o");
    assert_eq!(join("/", "a.o"), "/a.o");
}

#[test]
fn absolute_name_stands_for_itself() {
    assert_eq!(join("lib", "/abs/a.o"), "/abs/a.o");
    assert_eq!(join("", "/a.o"), "/a.o");
}

#[test]
fn empty_directory_adds_nothing() {
    assert_eq!(join("", "a.o"), "a.o");
    assert_eq!(join("lib", ""), "lib/");
    assert_eq!(join("", ""), "");
}

#[test]
fn only_directories_are_recorded() {
    let mut paths = Paths::new();
    paths.add(&String::from("real"), true);
    paths.add(&String::from("missing"), false);
    paths.add(&String::from("other"), true);
    assert_eq!(paths.paths, vec!["real", "other"]);
    assert!(paths.contains("real"));
    assert!(!paths.contains("missing"));
}

#[test]
fn a_directory_is_recorded_once() {
    let mut paths = Paths::new();
    paths.add(&String::from("lib"), true);
    paths.add(&String::from("lib"), true);
    paths.add(&String::from("lib"), false);
    assert_eq!(paths.paths, vec!["lib"]);
}

#[test]
fn the_name_itself_is_tried_first() {
    let mut paths = Paths::new();
    paths.add(&String::from("x"), true);
    paths.add(&String::from("y/"), true);
    let places = names(paths.candidates(&String::from("a.o")));
    assert_eq!(places, vec!["a.o", "x/a.o", "y/a.o"]);
    assert_eq!(names(Paths::new().candidates(&String::from("a.o"))), vec!["a.o"]);
}

#[test]
fn the_first_place_that_is_a_file_is_found() {
    let mut paths = Paths::new();
    paths.add(&String::from("x"), true);
    paths.add(&String::from("y"), true);
    let name = String::from("a.o");
    assert_eq!(paths.find_file(&name, &vec![true, true, true]), Some(String::from("a.o")));
    assert_eq!(paths.find_file(&name, &vec![false, true, true]), Some(String::from("x/a.o")));
    assert_eq!(paths.find_file(&name, &vec![false, false, true]), Some(String::from("y/a.o")));
    assert_eq!(paths.find_file(&name, &vec![false, false, false]), None);
}

#[test]
fn places_without_an_answer_count_as_missing() {
    let mut paths = Paths::new();
    paths.add(&String::from("x"), true);
    let name = String::from("a.o");
    assert_eq!(paths.find_file(&name, &vec![]), None);
    assert_eq!(paths.find_file(&name, &vec![false]), None);
    assert_eq!(paths.find_file(&name, &vec![false, false, true]), None);
}

#[test]
fn values_are_rounded_up_to_the_alignment() {
    assert_eq!(align_up_to(0, 8), 0);
    assert_eq!(align_up_to(1, 8), 8);
    assert_eq!(align_up_to(8, 8), 8);
    assert_eq!(align_up_to(9, 8), 16);
    assert_eq!(align_up_to(4095, 4096), 4096);
    assert_eq!(align_up_to(4097, 4096), 8192);
    assert_eq!(align_up_to(13, 1), 13);
    assert_eq!(align_up_to(usize::MAX - 7, 8), usize::MAX - 7);
}
