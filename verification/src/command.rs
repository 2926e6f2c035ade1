//! The command-line grammar: subcommands, flags, and the parser that turns an
//! argument list into a typed [`Command`].
//!
//! The grammar has two subcommands.  `print-text` (alias `echo`) takes one
//! optional positional argument, the text to print, and no flags.
//! `display-file` (alias `cat`) takes one optional positional argument, the
//! path to read, and four switches:
//!
//! * `-n`, `--number-all`, `--number` — number every output line;
//! * `-b`, `--number-nonblank` — number only the non-blank output lines;
//! * `-s`, `-e`, `--show-ends` — write `$` at the end of every line;
//! * `-T`, `--show-tabs` — write every tab as `^I`.
//!
//! A token counts as a flag when it starts with `-` and has at least two
//! characters, so a lone `-` is an ordinary positional argument.  The parser
//! walks the arguments left to right and reports the first offence: an
//! unknown flag, or a second positional argument.

use crate::text::str_eq;
use vstd::prelude::*;

verus! {

/// The switches of the `display-file` subcommand.
#[derive(Clone, Copy, Debug, PartialEq, Eq, Structural)]
pub struct DisplayOpts {
    pub number_all: bool,
    pub number_nonblank: bool,
    pub show_ends: bool,
    pub show_tabs: bool,
}

impl DisplayOpts {
    /// All switches off.
    pub fn plain() -> (r: DisplayOpts)
        ensures
            r == (DisplayOpts {
                number_all: false,
                number_nonblank: false,
                show_ends: false,
                show_tabs: false,
            }),
    {
        DisplayOpts { number_all: false, number_nonblank: false, show_ends: false, show_tabs: false }
    }
}

/// A parsed command line.
#[derive(Debug, PartialEq, Eq)]
pub enum Command {
    /// Print the given text (or an empty line when it is absent).
    Print { text: Option<String> },
    /// Write the lines of the file at `path` with the given decorations; an
    /// absent path is treated as the empty path, which no file has.
    Display { path: Option<String>, opts: DisplayOpts },
}

/// The mathematical shape of a [`Command`]: the same constructors over
/// sequences of characters.
pub enum CommandModel {
    Print { text: Option<Seq<char>> },
    Display { path: Option<Seq<char>>, opts: DisplayOpts },
}

impl View for Command {
    type V = CommandModel;

    open spec fn view(&self) -> CommandModel {
        match self {
            Command::Print { text: Some(t) } => CommandModel::Print { text: Some(t@) },
            Command::Print { text: None } => CommandModel::Print { text: None },
            Command::Display { path: Some(p), opts } => CommandModel::Display {
                path: Some(p@),
                opts: *opts,
            },
            Command::Display { path: None, opts } => CommandModel::Display {
                path: None,
                opts: *opts,
            },
        }
    }
}

/// A malformed argument list, reported to the caller instead of a command.
#[derive(Clone, Copy, Debug, PartialEq, Eq, Structural)]
pub enum UsageError {
    /// The argument list holds no subcommand at all.
    MissingSubcommand,
    /// The first argument names no known subcommand.
    UnknownSubcommand,
    /// A flag that the named subcommand does not take.
    UnknownFlag,
    /// A positional argument beyond the one the subcommand takes.
    UnexpectedArgument,
}

/// Whether a token is read as a flag: it starts with `-` and has at least two
/// characters.
pub open spec fn is_flag_token(t: Seq<char>) -> bool {
    t.len() >= 2 && t[0] == '-'
}

/// The switch a flag token stands for, if any.
pub open spec fn flag_switch(t: Seq<char>) -> Option<DisplayFlag> {
    if t == "-n"@ || t == "--number-all"@ || t == "--number"@ {
        Some(DisplayFlag::NumberAll)
    } else if t == "-b"@ || t == "--number-nonblank"@ {
        Some(DisplayFlag::NumberNonblank)
    } else if t == "-s"@ || t == "-e"@ || t == "--show-ends"@ {
        Some(DisplayFlag::ShowEnds)
    } else if t == "-T"@ || t == "--show-tabs"@ {
        Some(DisplayFlag::ShowTabs)
    } else {
        None
    }
}

/// One switch of `display-file`.
#[derive(Clone, Copy, Debug, PartialEq, Eq, Structural)]
pub enum DisplayFlag {
    NumberAll,
    NumberNonblank,
    ShowEnds,
    ShowTabs,
}

/// `opts` with the given switch turned on.
pub open spec fn set_switch(opts: DisplayOpts, f: DisplayFlag) -> DisplayOpts {
    match f {
        DisplayFlag::NumberAll => DisplayOpts { number_all: true, ..opts },
        DisplayFlag::NumberNonblank => DisplayOpts { number_nonblank: true, ..opts },
        DisplayFlag::ShowEnds => DisplayOpts { show_ends: true, ..opts },
        DisplayFlag::ShowTabs => DisplayOpts { show_tabs: true, ..opts },
    }
}

/// The arguments of `print-text` after the subcommand name: flags are not
/// taken, the first positional argument is the text, a second one is an
/// error.
pub open spec fn parse_print(tokens: Seq<Seq<char>>, text: Option<Seq<char>>) -> Result<
    CommandModel,
    UsageError,
>
    decreases tokens.len(),
{
    if tokens.len() == 0 {
        Ok(CommandModel::Print { text })
    } else if is_flag_token(tokens[0]) {
        Err(UsageError::UnknownFlag)
    } else if text is None {
        parse_print(tokens.drop_first(), Some(tokens[0]))
    } else {
        Err(UsageError::UnexpectedArgument)
    }
}

/// The arguments of `display-file` after the subcommand name: known flags
/// turn their switch on, the first positional argument is the path, a second
/// one is an error.
pub open spec fn parse_display(
    tokens: Seq<Seq<char>>,
    path: Option<Seq<char>>,
    opts: DisplayOpts,
) -> Result<CommandModel, UsageError>
    decreases tokens.len(),
{
    if tokens.len() == 0 {
        Ok(CommandModel::Display { path, opts })
    } else if is_flag_token(tokens[0]) {
        match flag_switch(tokens[0]) {
            Some(f) => parse_display(tokens.drop_first(), path, set_switch(opts, f)),
            None => Err(UsageError::UnknownFlag),
        }
    } else if path is None {
        parse_display(tokens.drop_first(), Some(tokens[0]), opts)
    } else {
        Err(UsageError::UnexpectedArgument)
    }
}

/// The options every `display-file` starts from: all switches off.
pub open spec fn default_opts() -> DisplayOpts {
    DisplayOpts { number_all: false, number_nonblank: false, show_ends: false, show_tabs: false }
}

/// The whole grammar: the first argument picks the subcommand, the rest are
/// parsed by its rule.  The argument list starts after the program name.
pub open spec fn parse_spec(args: Seq<Seq<char>>) -> Result<CommandModel, UsageError> {
    if args.len() == 0 {
        Err(UsageError::MissingSubcommand)
    } else if args[0] == "print-text"@ || args[0] == "echo"@ {
        parse_print(args.drop_first(), None)
    } else if args[0] == "display-file"@ || args[0] == "cat"@ {
        parse_display(args.drop_first(), None, default_opts())
    } else {
        Err(UsageError::UnknownSubcommand)
    }
}

/// Whether a token is read as a flag.
fn is_flag_token_exec(t: &str) -> (r: bool)
    ensures
        r == is_flag_token(t@),
{
    t.unicode_len() >= 2 && t.get_char(0) == '-'
}

/// The switch a flag token stands for, if any.
fn flag_switch_exec(t: &str) -> (r: Option<DisplayFlag>)
    ensures
        r == flag_switch(t@),
{
    if str_eq(t, "-n") || str_eq(t, "--number-all") || str_eq(t, "--number") {
        Some(DisplayFlag::NumberAll)
    } else if str_eq(t, "-b") || str_eq(t, "--number-nonblank") {
        Some(DisplayFlag::NumberNonblank)
    } else if str_eq(t, "-s") || str_eq(t, "-e") || str_eq(t, "--show-ends") {
        Some(DisplayFlag::ShowEnds)
    } else if str_eq(t, "-T") || str_eq(t, "--show-tabs") {
        Some(DisplayFlag::ShowTabs)
    } else {
        None
    }
}

/// Parse an argument list (the arguments after the program name) into a
/// [`Command`], or report how it is malformed.
pub fn parse_args(args: &Vec<String>) -> (r: Result<Command, UsageError>)
    ensures
        match r {
            Ok(c) => parse_spec(args.deep_view()) == Ok::<CommandModel, UsageError>(c@),
            Err(e) => parse_spec(args.deep_view()) == Err::<CommandModel, UsageError>(e),
        },
{
    let n: usize = args.len();
    if n == 0 {
        return Err(UsageError::MissingSubcommand);
    }
    let sub = &args[0];
    if str_eq(sub.as_str(), "print-text") || str_eq(sub.as_str(), "echo") {
        let mut text: Option<String> = None;
        let mut i: usize = 1;
        proof {
            assert(args.deep_view()[0] == args@[0].deep_view());
            assert(args.deep_view().skip(1) =~= args.deep_view().drop_first());
        }
        while i < n
            invariant
                1 <= i <= n,
                n == args.len(),
                parse_spec(args.deep_view()) == parse_print(
                    args.deep_view().drop_first(),
                    None::<Seq<char>>,
                ),
                parse_print(args.deep_view().skip(i as int), text.deep_view()) == parse_print(
                    args.deep_view().drop_first(),
                    None::<Seq<char>>,
                ),
            decreases n - i,
        {
            proof {
                assert(args.deep_view()[i as int] == args@[i as int].deep_view());
                assert(args.deep_view().skip(i as int)[0] == args.deep_view()[i as int]);
                assert(args.deep_view().skip(i as int).drop_first() =~= args.deep_view().skip(
                    i + 1,
                ));
            }
            let tok = &args[i];
            if is_flag_token_exec(tok.as_str()) {
                return Err(UsageError::UnknownFlag);
            } else if text.is_none() {
                text = Some(tok.clone());
            } else {
                return Err(UsageError::UnexpectedArgument);
            }
            i = i + 1;
        }
        proof {
            assert(args.deep_view().skip(n as int) =~= Seq::<Seq<char>>::empty());
        }
        Ok(Command::Print { text })
    } else if str_eq(sub.as_str(), "display-file") || str_eq(sub.as_str(), "cat") {
        let mut path: Option<String> = None;
        let mut opts = DisplayOpts::plain();
        let mut i: usize = 1;
        proof {
            assert(args.deep_view()[0] == args@[0].deep_view());
            assert(args.deep_view().skip(1) =~= args.deep_view().drop_first());
        }
        while i < n
            invariant
                1 <= i <= n,
                n == args.len(),
                parse_spec(args.deep_view()) == parse_display(
                    args.deep_view().drop_first(),
                    None::<Seq<char>>,
                    default_opts(),
                ),
                parse_display(args.deep_view().skip(i as int), path.deep_view(), opts)
                    == parse_display(
                    args.deep_view().drop_first(),
                    None::<Seq<char>>,
                    default_opts(),
                ),
            decreases n - i,
        {
            proof {
                assert(args.deep_view()[i as int] == args@[i as int].deep_view());
                assert(args.deep_view().skip(i as int)[0] == args.deep_view()[i as int]);
                assert(args.deep_view().skip(i as int).drop_first() =~= args.deep_view().skip(
                    i + 1,
                ));
            }
            let tok = &args[i];
            if is_flag_token_exec(tok.as_str()) {
                match flag_switch_exec(tok.as_str()) {
                    Some(DisplayFlag::NumberAll) => {
                        opts.number_all = true;
                    },
                    Some(DisplayFlag::NumberNonblank) => {
                        opts.number_nonblank = true;
                    },
                    Some(DisplayFlag::ShowEnds) => {
                        opts.show_ends = true;
                    },
                    Some(DisplayFlag::ShowTabs) => {
                        opts.show_tabs = true;
                    },
                    None => {
                        return Err(UsageError::UnknownFlag);
                    },
                }
            } else if path.is_none() {
                path = Some(tok.clone());
            } else {
                return Err(UsageError::UnexpectedArgument);
            }
            i = i + 1;
        }
        proof {
            assert(args.deep_view().skip(n as int) =~= Seq::<Seq<char>>::empty());
        }
        Ok(Command::Display { path, opts })
    } else {
        Err(UsageError::UnknownSubcommand)
    }
}

} // verus!
