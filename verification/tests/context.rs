use itsylinker::config::default_config;
use itsylinker::context::{Action, ActionIter, Context, Group, StreamItem};

fn steps(context: &Context) -> Vec<String> {
    context
        .actions()
        .iter()
        .map(|action| match action {
            Action::AddSearchPath(name) => format!("search {}", name),
            Action::LoadFile(name) => format!("load {}", name),
        })
        .collect()
}

fn group_of(files: &[&str]) -> Group {
    let mut group = Group::new();
    for file in files {
        group.add(StreamItem::File(String::from(*file)));
    }
    group
}

#[test]
fn new_context_writes_to_a_out() {
    let context = Context::new();
    assert_eq!(context.get_output_file(), "a.out");
    assert_eq!(context.get_config_file(), &None);
    assert!(context.get_config().is_none());
    assert!(context.input_stream.is_empty());
    assert!(steps(&context).is_empty());
}

#[test]
fn setters_change_one_thing_each() {
    let mut context = Context::new();
    context.add_to_stream(StreamItem::File(String::from("a.o")));
    context.set_output_file(&String::from("kernel.elf"));
    assert_eq!(context.get_output_file(), "kernel.elf");
    assert_eq!(context.get_config_file(), &None);
    assert_eq!(context.input_stream.len(), 1);
    context.set_config_file(&String::from("link.toml"));
    assert_eq!(context.get_config_file(), &Some(String::from("link.toml")));
    assert_eq!(context.get_output_file(), "kernel.elf");
    assert!(context.get_config().is_none());
    context.set_config(default_config());
    assert_eq!(context.get_config().unwrap().get_output().get_entry_symbol(), "_start");
    assert_eq!(context.get_output_file(), "kernel.elf");
    assert_eq!(context.input_stream.len(), 1);
}

#[test]
fn group_keeps_its_files_in_order() {
    let group = group_of(&["x.rlib", "y.rlib", "x.rlib"]);
    assert_eq!(group.iter(), &vec!["x.rlib", "y.rlib", "x.rlib"]);
    assert!(Group::new().iter().is_empty());
}

#[test]
fn group_takes_only_files() {
    let mut group = group_of(&["x.rlib"]);
    group.add(StreamItem::SearchPath(String::from("lib")));
    group.add(StreamItem::Group(group_of(&["inner.rlib"])));
    group.add(StreamItem::File(String::from("y.rlib")));
    assert_eq!(group.iter(), &vec!["x.rlib", "y.rlib"]);
}

#[test]
fn steps_follow_the_stream() {
    let mut context = Context::new();
    context.add_to_stream(StreamItem::File(String::from("a.o")));
    context.add_to_stream(StreamItem::SearchPath(String::from("lib")));
    context.add_to_stream(StreamItem::Group(group_of(&["x.rlib", "y.rlib"])));
    context.add_to_stream(StreamItem::Group(Group::new()));
    context.add_to_stream(StreamItem::File(String::from("b.o")));
    assert_eq!(
        steps(&context),
        vec!["load a.o", "search lib", "load x.rlib", "load y.rlib", "load b.o"]
    );
}

#[test]
fn cursor_walks_the_stream_once() {
    let mut context = Context::new();
    context.add_to_stream(StreamItem::File(String::from("a.o")));
    context.add_to_stream(StreamItem::SearchPath(String::from("lib")));
    let mut cursor = ActionIter::new(&context);
    assert!(matches!(cursor.next(), Some(StreamItem::File(name)) if name == "a.o"));
    assert!(matches!(cursor.next(), Some(StreamItem::SearchPath(name)) if name == "lib"));
    assert!(cursor.next().is_none());
    assert!(cursor.next().is_none());
}
