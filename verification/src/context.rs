//! The link context: what the command line asks for. The order of the
//! files on the command line matters, so the inputs are kept as a stream
//! that is worked through one item at a time.

use vstd::prelude::*;
use vstd::string::*;
use crate::config::Config;

verus! {

pub type Filename = String;

/// A group of files.
#[derive(Debug)]
pub struct Group {
    pub files: Vec<Filename>,
}

/// An item of the input stream.
#[derive(Debug)]
pub enum StreamItem {
    /// A file to link.
    File(Filename),
    /// A directory in which files are searched for.
    SearchPath(Filename),
    /// A group of files to link.
    Group(Group),
}

/// An item of the input stream as a mathematical value.
pub enum ItemView {
    File(Seq<char>),
    SearchPath(Seq<char>),
    Group(Seq<Seq<char>>),
}

impl View for Group {
    type V = Seq<Seq<char>>;

    open spec fn view(&self) -> Seq<Seq<char>> {
        crate::config::text_views(self.files@)
    }
}

impl View for StreamItem {
    type V = ItemView;

    open spec fn view(&self) -> ItemView {
        match self {
            StreamItem::File(name) => ItemView::File(name@),
            StreamItem::SearchPath(name) => ItemView::SearchPath(name@),
            StreamItem::Group(group) => ItemView::Group(group@),
        }
    }
}

/// The views of a sequence of stream items.
pub open spec fn item_views(items: Seq<StreamItem>) -> Seq<ItemView> {
    Seq::new(items.len(), |i: int| items[i]@)
}

impl Group {
    /// A group without files.
    pub fn new() -> (group: Group)
        ensures
            group@ == Seq::<Seq<char>>::empty(),
    {
        let group = Group { files: Vec::new() };
        assert(group@ =~= Seq::<Seq<char>>::empty());
        group
    }

    /// Puts an item into the group: a file goes behind the files of the
    /// group; anything else is not a file to load and is left out.
    pub fn add(&mut self, item: StreamItem)
        ensures
            final(self)@ == (match item@ {
                ItemView::File(name) => old(self)@.push(name),
                _ => old(self)@,
            }),
    {
        match item {
            StreamItem::File(file) => {
                self.files.push(file);
                assert(self@ =~= old(self)@.push(file@));
            },
            _ => {},
        }
    }

    /// The files of the group in order.
    pub fn iter(&self) -> (files: &Vec<Filename>)
        ensures
            files == self.files,
    {
        &self.files
    }
}

/// What is to be done for the input stream, one step at a time.
#[derive(Debug)]
pub enum Action {
    /// Record a directory in which files are searched for.
    AddSearchPath(Filename),
    /// Find a file and add it to the manifest.
    LoadFile(Filename),
}

/// A step as a mathematical value.
pub enum ActionView {
    AddSearchPath(Seq<char>),
    LoadFile(Seq<char>),
}

impl View for Action {
    type V = ActionView;

    open spec fn view(&self) -> ActionView {
        match self {
            Action::AddSearchPath(name) => ActionView::AddSearchPath(name@),
            Action::LoadFile(name) => ActionView::LoadFile(name@),
        }
    }
}

/// The views of a sequence of steps.
pub open spec fn action_views(actions: Seq<Action>) -> Seq<ActionView> {
    Seq::new(actions.len(), |i: int| actions[i]@)
}

/// The steps for one item of the stream: a search path is recorded, a
/// file is loaded, and the files of a group are loaded one by one.
pub open spec fn item_actions(item: ItemView) -> Seq<ActionView> {
    match item {
        ItemView::File(name) => seq![ActionView::LoadFile(name)],
        ItemView::SearchPath(name) => seq![ActionView::AddSearchPath(name)],
        ItemView::Group(files) => Seq::new(files.len(), |i: int| ActionView::LoadFile(files[i])),
    }
}

/// The steps for the first `upto` items of a stream, in stream order.
pub open spec fn stream_actions(stream: Seq<ItemView>, upto: int) -> Seq<ActionView>
    decreases upto,
{
    if upto <= 0 || upto > stream.len() {
        Seq::empty()
    } else {
        stream_actions(stream, upto - 1) + item_actions(stream[upto - 1])
    }
}

/// What the command line asks for.
#[derive(Debug)]
pub struct Context {
    /// Where the output is written.
    pub output_file: Filename,
    /// Where the link script is read from, if the command line says so.
    pub config_file: Option<Filename>,
    /// The inputs in command-line order.
    pub input_stream: Vec<StreamItem>,
    /// The link script, once it is loaded.
    pub config: Option<Config>,
}

/// A context as a mathematical value, without the link script.
pub struct ContextView {
    pub output_file: Seq<char>,
    pub config_file: Option<Seq<char>>,
    pub input_stream: Seq<ItemView>,
}

impl View for Context {
    type V = ContextView;

    open spec fn view(&self) -> ContextView {
        ContextView {
            output_file: self.output_file@,
            config_file: crate::config::optional_text(self.config_file),
            input_stream: item_views(self.input_stream@),
        }
    }
}

impl Context {
    /// A context without inputs and without a link script, whose output
    /// goes to `a.out`.
    pub fn new() -> (context: Context)
        ensures
            context@ == (ContextView {
                output_file: "a.out"@,
                config_file: None,
                input_stream: Seq::empty(),
            }),
            context.config is None,
    {
        let context = Context {
            output_file: String::from_str("a.out"),
            config_file: None,
            input_stream: Vec::new(),
            config: None,
        };
        assert(context@.input_stream =~= Seq::empty());
        context
    }

    /// The link script, if one is loaded.
    pub fn get_config(&self) -> (config: Option<&Config>)
        ensures
            config.is_some() == self.config.is_some(),
            config matches Some(loaded) ==> self.config == Some(*loaded),
    {
        self.config.as_ref()
    }

    /// Stores the loaded link script.
    pub fn set_config(&mut self, config: Config)
        ensures
            final(self).config == Some(config),
            final(self)@ == old(self)@,
    {
        self.config = Some(config);
    }

    /// Puts an item behind the items of the input stream.
    pub fn add_to_stream(&mut self, item: StreamItem)
        ensures
            final(self)@ == (ContextView {
                input_stream: old(self)@.input_stream.push(item@),
                ..old(self)@
            }),
            final(self).config == old(self).config,
    {
        self.input_stream.push(item);
        assert(self@.input_stream =~= old(self)@.input_stream.push(item@));
    }

    /// Sets the path of the output.
    pub fn set_output_file(&mut self, path: &String)
        ensures
            final(self)@ == (ContextView { output_file: path@, ..old(self)@ }),
            final(self).config == old(self).config,
    {
        self.output_file = path.clone();
    }

    /// The path of the output.
    pub fn get_output_file(&self) -> (path: String)
        ensures
            path@ == self@.output_file,
    {
        self.output_file.clone()
    }

    /// Sets the path of the link script.
    pub fn set_config_file(&mut self, path: &String)
        ensures
            final(self)@ == (ContextView { config_file: Some(path@), ..old(self)@ }),
            final(self).config == old(self).config,
    {
        self.config_file = Some(path.clone());
    }

    /// The path of the link script, if the command line gives one.
    pub fn get_config_file(&self) -> (path: &Option<Filename>)
        ensures
            path == self.config_file,
    {
        &self.config_file
    }

    /// The steps that build the manifest, in the order in which they are
    /// to be taken.
    pub fn actions(&self) -> (actions: Vec<Action>)
        ensures
            action_views(actions@) == stream_actions(
                self@.input_stream,
                self@.input_stream.len() as int,
            ),
    {
        let mut actions: Vec<Action> = Vec::new();
        let mut position: usize = 0;
        assert(action_views(actions@) =~= stream_actions(self@.input_stream, 0));
        while position < self.input_stream.len()
            invariant
                position <= self.input_stream@.len(),
                action_views(actions@) == stream_actions(self@.input_stream, position as int),
            decreases self.input_stream@.len() - position,
        {
            let ghost before = action_views(actions@);
            match &self.input_stream[position] {
                StreamItem::File(name) => {
                    actions.push(Action::LoadFile(name.clone()));
                    assert(action_views(actions@) =~= before + item_actions(
                        self@.input_stream[position as int],
                    ));
                },
                StreamItem::SearchPath(name) => {
                    actions.push(Action::AddSearchPath(name.clone()));
                    assert(action_views(actions@) =~= before + item_actions(
                        self@.input_stream[position as int],
                    ));
                },
                StreamItem::Group(group) => {
                    let mut member: usize = 0;
                    while member < group.files.len()
                        invariant
                            member <= group.files@.len(),
                            action_views(actions@) == before + Seq::new(
                                member as nat,
                                |i: int| ActionView::LoadFile(group.files@[i]@),
                            ),
                        decreases group.files@.len() - member,
                    {
                        let ghost sofar = action_views(actions@);
                        actions.push(Action::LoadFile(group.files[member].clone()));
                        assert(action_views(actions@) =~= sofar.push(
                            ActionView::LoadFile(group.files@[member as int]@),
                        ));
                        member += 1;
                        assert(action_views(actions@) =~= before + Seq::new(
                            member as nat,
                            |i: int| ActionView::LoadFile(group.files@[i]@),
                        ));
                    }
                    assert(Seq::new(
                        group.files@.len(),
                        |i: int| ActionView::LoadFile(group.files@[i]@),
                    ) =~= item_actions(self@.input_stream[position as int]));
                },
            }
            position += 1;
        }
        actions
    }
}

/// A cursor over the items of the input stream.
#[derive(Debug)]
pub struct ActionIter<'a> {
    pub stream: &'a Vec<StreamItem>,
    pub position: usize,
}

impl<'a> ActionIter<'a> {
    /// A cursor at the start of the input stream of a context.
    pub fn new(context: &'a Context) -> (cursor: ActionIter<'a>)
        ensures
            cursor.stream == context.input_stream,
            cursor.position == 0,
    {
        ActionIter { stream: &context.input_stream, position: 0 }
    }

    /// The item at the cursor, which then moves on; nothing at the end
    /// of the stream.
    pub fn next(&mut self) -> (item: Option<&'a StreamItem>)
        ensures
            final(self).stream == old(self).stream,
            old(self).position < old(self).stream@.len() ==> item == Some(
                &old(self).stream@[old(self).position as int],
            ) && final(self).position == old(self).position + 1,
            old(self).position >= old(self).stream@.len() ==> item is None && final(self).position
                == old(self).position,
    {
        if self.position < self.stream.len() {
            let item = &self.stream[self.position];
            self.position += 1;
            Some(item)
        } else {
            None
        }
    }
}

} // verus!
