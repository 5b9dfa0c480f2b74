//! The command line: from the arguments to the link context.

use vstd::prelude::*;
use vstd::string::*;
use crate::config::{same_text, text_views};
use crate::context::{Context, ContextView, Group, ItemView, StreamItem};
use crate::error::LinkError;

verus! {

/// The states of the argument parser.
#[derive(Clone, Copy, Debug, PartialEq, Eq, Structural)]
pub enum State {
    /// The next argument is a switch or a file to link.
    ExpectingAnything,
    /// The next argument is a search path.
    ExpectingSearchPath,
    /// The next argument is the path of the output.
    ExpectingOutputFile,
    /// The next argument is the path of the link script.
    ExpectingConfigFile,
    /// The next argument is the interface flavor.
    ExpectingFlavorType,
    /// The arguments are files of a group, up to the switch that ends
    /// the group.
    WaitingForGroupEnd,
}

/// Whether an argument is a switch that is accepted and has no effect.
pub open spec fn is_ignored_switch(arg: Seq<char>) -> bool {
    arg == "--gc-sections"@ || arg == "-Bstatic"@ || arg == "-Bdynamic"@ || arg == "--as-needed"@
        || arg == "--no-add-needed"@ || arg == "-znoexecstack"@
}

/// What an argument means where a switch or a file is expected: whether
/// it is a switch, and the state that it leads to if it leads to one.
/// The switches that ask for the usage text or the version end the
/// parse.
pub open spec fn single_arg(arg: Seq<char>) -> Result<(bool, Option<State>), LinkError> {
    if arg == "--help"@ {
        Err(LinkError::HelpRequested)
    } else if arg == "--version"@ {
        Err(LinkError::VersionRequested)
    } else if arg == "-L"@ {
        Ok((true, Some(State::ExpectingSearchPath)))
    } else if arg == "-o"@ {
        Ok((true, Some(State::ExpectingOutputFile)))
    } else if arg == "-T"@ {
        Ok((true, Some(State::ExpectingConfigFile)))
    } else if arg == "-flavor"@ {
        Ok((true, Some(State::ExpectingFlavorType)))
    } else if is_ignored_switch(arg) {
        Ok((true, None))
    } else if arg == "--start-group"@ {
        Ok((true, Some(State::WaitingForGroupEnd)))
    } else if arg == "--end-group"@ {
        Ok((true, Some(State::ExpectingAnything)))
    } else {
        Ok((false, None))
    }
}

/// Parses a single argument where a switch or a file is expected.
pub fn parse_single_arg(arg: &String) -> (result: Result<(bool, Option<State>), LinkError>)
    ensures
        result == single_arg(arg@),
{
    let arg = arg.as_str();
    if same_text(arg, "--help") {
        Err(LinkError::HelpRequested)
    } else if same_text(arg, "--version") {
        Err(LinkError::VersionRequested)
    } else if same_text(arg, "-L") {
        Ok((true, Some(State::ExpectingSearchPath)))
    } else if same_text(arg, "-o") {
        Ok((true, Some(State::ExpectingOutputFile)))
    } else if same_text(arg, "-T") {
        Ok((true, Some(State::ExpectingConfigFile)))
    } else if same_text(arg, "-flavor") {
        Ok((true, Some(State::ExpectingFlavorType)))
    } else if same_text(arg, "--gc-sections") || same_text(arg, "-Bstatic") || same_text(
        arg,
        "-Bdynamic",
    ) || same_text(arg, "--as-needed") || same_text(arg, "--no-add-needed") || same_text(
        arg,
        "-znoexecstack",
    ) {
        Ok((true, None))
    } else if same_text(arg, "--start-group") {
        Ok((true, Some(State::WaitingForGroupEnd)))
    } else if same_text(arg, "--end-group") {
        Ok((true, Some(State::ExpectingAnything)))
    } else {
        Ok((false, None))
    }
}

/// The state of a parse: the state of the parser, the context built so
/// far, and the files of the group that is open.
pub struct Parse {
    pub state: State,
    pub context: ContextView,
    pub group: Seq<Seq<char>>,
}

/// The parse before the first argument.
pub open spec fn parse_start() -> Parse {
    Parse {
        state: State::ExpectingAnything,
        context: ContextView {
            output_file: "a.out"@,
            config_file: None,
            input_stream: Seq::empty(),
        },
        group: Seq::empty(),
    }
}

/// The parse with `item` put behind the input stream, in state `state`.
pub open spec fn with_item(parse: Parse, item: ItemView, state: State) -> Parse {
    Parse {
        state,
        context: ContextView {
            input_stream: parse.context.input_stream.push(item),
            ..parse.context
        },
        ..parse
    }
}

/// Takes one argument, the one at `position` on the command line.
///
/// Where anything is expected, a switch changes the state or is ignored
/// and any other argument is a file to link. Within a group the switch
/// that ends it commits the group to the input stream, any other switch
/// is ignored, and any other argument is a file of the group. An
/// argument that a switch waits for is taken as it is, and the parser
/// then expects anything again; a flavor other than `gnu` ends the
/// parse.
pub open spec fn parse_step(parse: Parse, arg: Seq<char>, position: usize) -> Result<
    Parse,
    LinkError,
> {
    match parse.state {
        State::ExpectingAnything => match single_arg(arg) {
            Err(e) => Err(e),
            Ok((true, Some(state))) => Ok(Parse { state, ..parse }),
            Ok((false, None)) => Ok(
                with_item(parse, ItemView::File(arg), State::ExpectingAnything),
            ),
            Ok(_) => Ok(parse),
        },
        State::WaitingForGroupEnd => match single_arg(arg) {
            Err(e) => Err(e),
            Ok((true, Some(State::ExpectingAnything))) => Ok(
                Parse {
                    group: Seq::empty(),
                    ..with_item(parse, ItemView::Group(parse.group), State::ExpectingAnything)
                },
            ),
            Ok((false, None)) => Ok(Parse { group: parse.group.push(arg), ..parse }),
            Ok(_) => Ok(parse),
        },
        State::ExpectingSearchPath => Ok(
            with_item(parse, ItemView::SearchPath(arg), State::ExpectingAnything),
        ),
        State::ExpectingOutputFile => Ok(
            Parse {
                state: State::ExpectingAnything,
                context: ContextView { output_file: arg, ..parse.context },
                ..parse
            },
        ),
        State::ExpectingConfigFile => Ok(
            Parse {
                state: State::ExpectingAnything,
                context: ContextView { config_file: Some(arg), ..parse.context },
                ..parse
            },
        ),
        State::ExpectingFlavorType => if arg == "gnu"@ {
            Ok(Parse { state: State::ExpectingAnything, ..parse })
        } else {
            Err(LinkError::WrongFlavor { argument: position })
        },
    }
}

/// Takes the arguments from position `from` on, in order.
pub open spec fn parse_from(parse: Parse, args: Seq<Seq<char>>, from: int) -> Result<
    Parse,
    LinkError,
>
    decreases args.len() - from,
{
    if from < 0 || from >= args.len() {
        Ok(parse)
    } else {
        match parse_step(parse, args[from], from as usize) {
            Err(e) => Err(e),
            Ok(next) => parse_from(next, args, from + 1),
        }
    }
}

/// The context that a command line asks for. The name of the program is
/// not among `args`. An empty command line is refused, and a group that
/// is still open at the end is dropped.
pub open spec fn parsed_args(args: Seq<Seq<char>>) -> Result<ContextView, LinkError> {
    if args.len() == 0 {
        Err(LinkError::NoArguments)
    } else {
        match parse_from(parse_start(), args, 0) {
            Err(e) => Err(e),
            Ok(parse) => Ok(parse.context),
        }
    }
}

/// Converts the command-line arguments, without the name of the program,
/// into a link context. No link script is loaded.
pub fn parse_args(args: &Vec<String>) -> (result: Result<Context, LinkError>)
    ensures
        match parsed_args(text_views(args@)) {
            Ok(view) => result matches Ok(context) && context@ == view && context.config is None,
            Err(e) => result matches Err(error) && error == e,
        },
{
    if args.len() == 0 {
        return Err(LinkError::NoArguments);
    }
    let mut context = Context::new();
    let mut state = State::ExpectingAnything;
    let mut group = Group::new();
    let ghost texts = text_views(args@);
    let mut position: usize = 0;
    while position < args.len()
        invariant
            position <= args@.len(),
            args@.len() > 0,
            texts == text_views(args@),
            context.config is None,
            parse_from(
                Parse { state, context: context@, group: group@ },
                texts,
                position as int,
            ) == parse_from(parse_start(), texts, 0),
        decreases args@.len() - position,
    {
        let arg = &args[position];
        assert(texts[position as int] == arg@);
        let ghost before = Parse { state, context: context@, group: group@ };
        match state {
            State::ExpectingAnything => {
                match parse_single_arg(arg) {
                    Err(e) => {
                        return Err(e);
                    },
                    Ok((true, Some(next))) => {
                        state = next;
                    },
                    Ok((false, None)) => {
                        context.add_to_stream(StreamItem::File(arg.clone()));
                    },
                    Ok(_) => {},
                }
            },
            State::WaitingForGroupEnd => {
                match parse_single_arg(arg) {
                    Err(e) => {
                        return Err(e);
                    },
                    Ok((true, Some(State::ExpectingAnything))) => {
                        context.add_to_stream(StreamItem::Group(group));
                        state = State::ExpectingAnything;
                        group = Group::new();
                    },
                    Ok((false, None)) => {
                        group.add(StreamItem::File(arg.clone()));
                    },
                    Ok(_) => {},
                }
            },
            State::ExpectingSearchPath => {
                context.add_to_stream(StreamItem::SearchPath(arg.clone()));
                state = State::ExpectingAnything;
            },
            State::ExpectingOutputFile => {
                context.set_output_file(arg);
                state = State::ExpectingAnything;
            },
            State::ExpectingConfigFile => {
                context.set_config_file(arg);
                state = State::ExpectingAnything;
            },
            State::ExpectingFlavorType => {
                if !same_text(arg.as_str(), "gnu") {
                    return Err(LinkError::WrongFlavor { argument: position });
                }
                state = State::ExpectingAnything;
            },
        }
        assert(Ok::<Parse, LinkError>(Parse { state, context: context@, group: group@ })
            == parse_step(before, texts[position as int], position));
        position += 1;
    }
    Ok(context)
}

} // verus!
