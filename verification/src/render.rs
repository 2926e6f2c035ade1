//! Line decoration and rendering: how one line is formatted, and how a whole
//! file's lines become the text written to standard output.
//!
//! Numbering follows two conventions, chosen to keep both switches useful.
//! With `--number-all` alone, every line carries its zero-based index.  With
//! `--number-nonblank` (which takes precedence when both are set), a blank
//! line carries no number, and a non-blank line carries its one-based
//! position minus the number of blank lines before it.  Either number is
//! written right-aligned in a field of width six, followed by two spaces.
//! After the optional number and the line itself, `--show-ends` appends `$`,
//! and `--show-tabs` then rewrites every tab of the assembled line as `^I`.

use crate::command::DisplayOpts;
use crate::text::{
    expand_tabs, expand_tabs_exec, is_blank, is_blank_exec, lemma_expand_tabs_no_tab, number_field,
    number_field_exec,
};
use vstd::prelude::*;

verus! {

/// The end-of-line marker, when `--show-ends` asks for one.
pub open spec fn end_marker(opts: DisplayOpts) -> Seq<char> {
    if opts.show_ends {
        seq!['$']
    } else {
        Seq::empty()
    }
}

/// Tab expansion, when `--show-tabs` asks for it.
pub open spec fn tabbed(s: Seq<char>, opts: DisplayOpts) -> Seq<char> {
    if opts.show_tabs {
        expand_tabs(s)
    } else {
        s
    }
}

/// The number a non-blank line carries under `--number-nonblank`: its
/// one-based position minus the blank lines before it.  (The guard keeps the
/// function total; every caller passes `blanks <= index`.)
pub open spec fn nonblank_number(index: nat, blanks: nat) -> nat {
    if blanks <= index {
        (index + 1 - blanks) as nat
    } else {
        0
    }
}

/// The numbering prefix of a line: under `--number-nonblank`, blank lines get
/// none and non-blank lines get the adjusted one-based number; otherwise,
/// under `--number-all`, every line gets its zero-based index.
pub open spec fn number_prefix(line: Seq<char>, index: nat, blanks: nat, opts: DisplayOpts) -> Seq<
    char,
> {
    if opts.number_nonblank {
        if is_blank(line) {
            Seq::empty()
        } else {
            number_field(nonblank_number(index, blanks))
        }
    } else if opts.number_all {
        number_field(index)
    } else {
        Seq::empty()
    }
}

/// The text written for one line (without the trailing newline): the optional
/// numbering prefix, the line, the optional `$`, with tabs expanded last.
/// `index` is the line's zero-based position and `blanks` the number of blank
/// lines before it.
pub open spec fn format_line_spec(
    line: Seq<char>,
    index: nat,
    blanks: nat,
    opts: DisplayOpts,
) -> Seq<char> {
    tabbed(number_prefix(line, index, blanks, opts) + line + end_marker(opts), opts)
}

/// The blank-line count after this line: it grows only when blank lines
/// matter, i.e. under `--number-nonblank`.
pub open spec fn next_blanks(line: Seq<char>, blanks: nat, opts: DisplayOpts) -> nat {
    if opts.number_nonblank && is_blank(line) {
        blanks + 1
    } else {
        blanks
    }
}

/// How many of the first `i` lines count as blank for numbering purposes.
pub open spec fn blanks_before(lines: Seq<Seq<char>>, i: int, opts: DisplayOpts) -> nat
    decreases i,
{
    if i <= 0 {
        0
    } else {
        next_blanks(lines[i - 1], blanks_before(lines, i - 1, opts), opts)
    }
}

/// There are never more blank lines before a line than lines before it.
pub proof fn lemma_blanks_before_le(lines: Seq<Seq<char>>, i: int, opts: DisplayOpts)
    requires
        0 <= i,
    ensures
        blanks_before(lines, i, opts) <= i,
    decreases i,
{
    if i > 0 {
        lemma_blanks_before_le(lines, i - 1, opts);
    }
}

/// The text written for the lines from position `i` on: each line's
/// formatted text followed by a newline.
pub open spec fn pieces_from(lines: Seq<Seq<char>>, opts: DisplayOpts, i: int) -> Seq<char>
    decreases lines.len() - i,
{
    if i < 0 || i >= lines.len() {
        Seq::empty()
    } else {
        format_line_spec(lines[i], i as nat, blanks_before(lines, i, opts), opts).push('\n')
            + pieces_from(lines, opts, i + 1)
    }
}

/// Everything written for a file read as the given lines.
pub open spec fn display_spec(lines: Seq<Seq<char>>, opts: DisplayOpts) -> Seq<char> {
    pieces_from(lines, opts, 0)
}

/// Format one line.  `index` is the line's zero-based position, `blanks` the
/// number of blank lines before it.  Returns the formatted text (without the
/// trailing newline) and the blank-line count after this line.
pub fn format_line(line: &str, index: usize, blanks: usize, opts: &DisplayOpts) -> (r: (
    String,
    usize,
))
    requires
        blanks <= index,
        index < usize::MAX,
    ensures
        r.0@ == format_line_spec(line@, index as nat, blanks as nat, *opts),
        r.1 as nat == next_blanks(line@, blanks as nat, *opts),
{
    let blank = is_blank_exec(line);
    let mut s = String::new();
    let mut nb: usize = blanks;
    if opts.number_nonblank {
        if blank {
            nb = blanks + 1;
        } else {
            s = number_field_exec(index + 1 - blanks);
        }
    } else if opts.number_all {
        s = number_field_exec(index);
    }
    s.append(line);
    if opts.show_ends {
        s.append("$");
        proof {
            reveal_strlit("$");
            assert("$"@ =~= seq!['$']);
        }
    }
    proof {
        assert(s@ =~= number_prefix(line@, index as nat, blanks as nat, *opts) + line@
            + end_marker(*opts));
    }
    if opts.show_tabs {
        let expanded = expand_tabs_exec(s.as_str());
        (expanded, nb)
    } else {
        (s, nb)
    }
}

/// Render a whole file, given as its lines (without their line endings), as
/// the text to write to standard output.
pub fn render_display(lines: &Vec<String>, opts: &DisplayOpts) -> (out: String)
    ensures
        out@ == display_spec(lines.deep_view(), *opts),
{
    let n: usize = lines.len();
    let mut out = String::new();
    let mut blanks: usize = 0;
    let mut i: usize = 0;
    while i < n
        invariant
            0 <= i <= n,
            n == lines.len(),
            blanks as nat == blanks_before(lines.deep_view(), i as int, *opts),
            blanks <= i,
            out@ + pieces_from(lines.deep_view(), *opts, i as int) == display_spec(
                lines.deep_view(),
                *opts,
            ),
        decreases n - i,
    {
        proof {
            assert(lines.deep_view()[i as int] == lines@[i as int].deep_view());
        }
        let (piece, nb) = format_line(lines[i].as_str(), i, blanks, opts);
        let ghost out0 = out@;
        out.append(piece.as_str());
        out.append("\n");
        proof {
            reveal_strlit("\n");
            assert("\n"@ =~= seq!['\n']);
            let dv = lines.deep_view();
            let fl = format_line_spec(dv[i as int], i as nat, blanks as nat, *opts);
            assert(out@ =~= out0 + fl.push('\n'));
            assert(out@ + pieces_from(dv, *opts, i + 1) =~= out0 + pieces_from(dv, *opts, i as int));
            lemma_blanks_before_le(dv, i + 1, *opts);
        }
        blanks = nb;
        i = i + 1;
    }
    proof {
        assert(pieces_from(lines.deep_view(), *opts, n as int) =~= Seq::<char>::empty());
    }
    out
}

/// With numbering of non-blank lines only, a blank line is written without a
/// number, and a non-blank line's number is its one-based position minus the
/// number of blank lines before it.
pub proof fn lemma_nonblank_numbering(lines: Seq<Seq<char>>, opts: DisplayOpts, i: int)
    requires
        opts.number_nonblank,
        0 <= i < lines.len(),
    ensures
        blanks_before(lines, i, opts) <= i,
        is_blank(lines[i]) ==> format_line_spec(
            lines[i],
            i as nat,
            blanks_before(lines, i, opts),
            opts,
        ) == tabbed(lines[i] + end_marker(opts), opts),
        !is_blank(lines[i]) ==> format_line_spec(
            lines[i],
            i as nat,
            blanks_before(lines, i, opts),
            opts,
        ) == tabbed(
            number_field((i + 1 - blanks_before(lines, i, opts)) as nat) + lines[i] + end_marker(
                opts,
            ),
            opts,
        ),
{
    lemma_blanks_before_le(lines, i, opts);
    if is_blank(lines[i]) {
        assert(number_prefix(lines[i], i as nat, blanks_before(lines, i, opts), opts) + lines[i]
            + end_marker(opts) =~= lines[i] + end_marker(opts));
    }
}

/// With `--show-tabs`, no tab character reaches the output: every tab of the
/// assembled line is replaced by `^I`.
pub proof fn lemma_show_tabs_no_tab(line: Seq<char>, index: nat, blanks: nat, opts: DisplayOpts)
    requires
        opts.show_tabs,
    ensures
        forall|j: int|
            0 <= j < format_line_spec(line, index, blanks, opts).len() ==> format_line_spec(
                line,
                index,
                blanks,
                opts,
            )[j] != '\t',
{
    lemma_expand_tabs_no_tab(number_prefix(line, index, blanks, opts) + line + end_marker(opts));
}

} // verus!
