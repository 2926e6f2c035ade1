//! A small command-line text utility, split into a verified core and a thin
//! I/O shell.  One command prints a supplied string; the other writes a file's
//! lines to standard output with optional decorations (line numbering,
//! numbering of non-blank lines only, end-of-line markers, tab visualization).
//!
//! The core is everything except the I/O itself: the argument grammar
//! ([`command::parse_args`]), the per-line formatting rules
//! ([`render::format_line`], [`render::render_display`]), and the dispatch
//! from a parsed command to the text that must be written ([`run`]).

pub mod command;
pub mod render;
pub mod text;

use crate::command::{parse_args, parse_spec, Command, CommandModel, DisplayOpts, UsageError};
use vstd::prelude::*;

verus! {

/// What a parsed command asks the caller to do.  The caller owns all I/O: it
/// writes `Done` output to standard output as it stands, and for `NeedFile`
/// it opens the path, reads it as lines, and writes [`render::render_display`]
/// of those lines.
#[derive(Debug, PartialEq, Eq)]
pub enum Step {
    /// The complete output is already known: write it.
    Done { output: String },
    /// Open this file and display its lines with these options.  An absent
    /// path was replaced by the empty path, which no file has, so opening it
    /// fails the way the command line asked for.
    NeedFile { path: String, opts: DisplayOpts },
}

/// What the print command writes: the given text, or nothing, then a newline.
pub open spec fn print_output(text: Option<Seq<char>>) -> Seq<char> {
    (match text {
        Some(t) => t,
        None => Seq::empty(),
    }) + seq!['\n']
}

/// The path to open: the one given, or the empty path.
pub open spec fn path_or_empty(path: Option<Seq<char>>) -> Seq<char> {
    match path {
        Some(p) => p,
        None => Seq::empty(),
    }
}

/// What [`run`] returns for a given argument list: the parse error as it
/// stands, the finished output of a print command, or the file request of a
/// display command.
pub open spec fn run_post(args: Seq<Seq<char>>, r: Result<Step, UsageError>) -> bool {
    match parse_spec(args) {
        Ok(CommandModel::Print { text }) => match r {
            Ok(Step::Done { output }) => output@ == print_output(text),
            _ => false,
        },
        Ok(CommandModel::Display { path, opts }) => match r {
            Ok(Step::NeedFile { path: p, opts: o }) => p@ == path_or_empty(path) && o == opts,
            _ => false,
        },
        Err(e) => r == Err::<Step, UsageError>(e),
    }
}

/// Parse an argument list (the arguments after the program name) and say what
/// must be done for it: either the output to write, or the file to read.
pub fn run(args: &Vec<String>) -> (r: Result<Step, UsageError>)
    ensures
        run_post(args.deep_view(), r),
{
    match parse_args(args) {
        Ok(Command::Print { text }) => {
            let mut output = match text {
                Some(t) => t,
                None => String::new(),
            };
            output.append("\n");
            proof {
                reveal_strlit("\n");
                assert("\n"@ =~= seq!['\n']);
            }
            Ok(Step::Done { output })
        },
        Ok(Command::Display { path, opts }) => {
            let p = match path {
                Some(q) => q,
                None => String::new(),
            };
            Ok(Step::NeedFile { path: p, opts })
        },
        Err(e) => Err(e),
    }
}

} // verus!
