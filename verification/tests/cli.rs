use custom_cli::command::{parse_args, Command, DisplayOpts, UsageError};
use custom_cli::render::{format_line, render_display};
use custom_cli::{run, Step};

fn args_of(parts: &[&str]) -> Vec<String> {
    parts.iter().map(|s| s.to_string()).collect()
}

fn lines_of(parts: &[&str]) -> Vec<String> {
    parts.iter().map(|s| s.to_string()).collect()
}

fn opts(number_all: bool, number_nonblank: bool, show_ends: bool, show_tabs: bool) -> DisplayOpts {
    DisplayOpts { number_all, number_nonblank, show_ends, show_tabs }
}

#[test]
fn test_echo_command() {
    match run(&args_of(&["echo", "hello"])) {
        Ok(Step::Done { output }) => assert_eq!(output, "hello\n"),
        other => panic!("unexpected result: {:?}", other),
    }
}

#[test]
fn print_text_prints_the_text() {
    match run(&args_of(&["print-text", "hello"])) {
        Ok(Step::Done { output }) => assert_eq!(output, "hello\n"),
        other => panic!("unexpected result: {:?}", other),
    }
}

#[test]
fn print_text_without_argument_prints_a_bare_newline() {
    match run(&args_of(&["print-text"])) {
        Ok(Step::Done { output }) => assert_eq!(output, "\n"),
        other => panic!("unexpected result: {:?}", other),
    }
}

#[test]
fn display_plain_file_content() {
    let out = render_display(&lines_of(&["hello file!"]), &opts(false, false, false, false));
    assert_eq!(out, "hello file!\n");
}

#[test]
fn display_show_ends_and_number_all() {
    let out = render_display(&lines_of(&["hello file!"]), &opts(true, false, true, false));
    assert_eq!(out, "     0  hello file!$\n");
}

#[test]
fn number_all_counts_from_zero() {
    let out = render_display(&lines_of(&["a", "b", "c"]), &opts(true, false, false, false));
    assert_eq!(out, "     0  a\n     1  b\n     2  c\n");
}

#[test]
fn number_nonblank_skips_the_blank_line() {
    let out = render_display(&lines_of(&["", "hello"]), &opts(false, true, false, false));
    assert_eq!(out, "\n     1  hello\n");
}

#[test]
fn number_nonblank_takes_precedence_over_number_all() {
    let out = render_display(&lines_of(&["", "hello"]), &opts(true, true, false, false));
    assert_eq!(out, "\n     1  hello\n");
}

#[test]
fn a_line_of_spaces_counts_as_blank() {
    let out = render_display(&lines_of(&["  ", "x"]), &opts(false, true, false, false));
    assert_eq!(out, "  \n     1  x\n");
}

#[test]
fn show_tabs_rewrites_every_tab() {
    let out = render_display(&lines_of(&["a\tb\tc"]), &opts(false, false, false, true));
    assert_eq!(out, "a^Ib^Ic\n");
}

#[test]
fn tabs_are_kept_without_show_tabs() {
    let out = render_display(&lines_of(&["a\tb"]), &opts(false, false, false, false));
    assert_eq!(out, "a\tb\n");
}

#[test]
fn a_tab_only_line_is_blank_and_still_expanded() {
    let out = render_display(&lines_of(&["\t", "x"]), &opts(false, true, true, true));
    assert_eq!(out, "^I$\n     1  x$\n");
}

#[test]
fn a_wide_number_outgrows_its_field() {
    let (text, blanks) = format_line("a", 1234567, 0, &opts(true, false, false, false));
    assert_eq!(text, "1234567  a");
    assert_eq!(blanks, 0);
}

#[test]
fn a_blank_line_raises_the_blank_count() {
    let (text, blanks) = format_line("", 2, 1, &opts(false, true, false, false));
    assert_eq!(text, "");
    assert_eq!(blanks, 2);
}

#[test]
fn display_flags_parse_in_short_form() {
    let parsed = parse_args(&args_of(&["display-file", "f.txt", "-n", "-b", "-s", "-T"]));
    assert_eq!(
        parsed,
        Ok(Command::Display {
            path: Some("f.txt".to_string()),
            opts: opts(true, true, true, true),
        })
    );
}

#[test]
fn display_flags_parse_in_long_form() {
    let parsed = parse_args(&args_of(&["cat", "--show-ends", "--number-all", "f.txt"]));
    assert_eq!(
        parsed,
        Ok(Command::Display {
            path: Some("f.txt".to_string()),
            opts: opts(true, false, true, false),
        })
    );
}

#[test]
fn display_without_path_parses_to_an_absent_path() {
    let parsed = parse_args(&args_of(&["display-file", "-e"]));
    assert_eq!(
        parsed,
        Ok(Command::Display { path: None, opts: opts(false, false, true, false) })
    );
}

#[test]
fn run_hands_back_the_file_request() {
    match run(&args_of(&["display-file", "x.txt", "-s"])) {
        Ok(Step::NeedFile { path, opts: o }) => {
            assert_eq!(path, "x.txt");
            assert_eq!(o, opts(false, false, true, false));
        },
        other => panic!("unexpected result: {:?}", other),
    }
}

#[test]
fn run_turns_an_absent_path_into_the_empty_path() {
    match run(&args_of(&["cat"])) {
        Ok(Step::NeedFile { path, opts: o }) => {
            assert_eq!(path, "");
            assert_eq!(o, opts(false, false, false, false));
        },
        other => panic!("unexpected result: {:?}", other),
    }
}

#[test]
fn an_empty_argument_list_is_refused() {
    assert_eq!(run(&args_of(&[])), Err(UsageError::MissingSubcommand));
}

#[test]
fn an_unknown_subcommand_is_refused() {
    assert_eq!(run(&args_of(&["copy", "a", "b"])), Err(UsageError::UnknownSubcommand));
}

#[test]
fn an_unknown_flag_is_refused() {
    assert_eq!(
        parse_args(&args_of(&["display-file", "f.txt", "-x"])),
        Err(UsageError::UnknownFlag)
    );
}

#[test]
fn print_text_takes_no_flags() {
    assert_eq!(parse_args(&args_of(&["print-text", "-s"])), Err(UsageError::UnknownFlag));
}

#[test]
fn a_second_text_argument_is_refused() {
    assert_eq!(
        parse_args(&args_of(&["print-text", "a", "b"])),
        Err(UsageError::UnexpectedArgument)
    );
}

#[test]
fn a_second_path_argument_is_refused() {
    assert_eq!(
        parse_args(&args_of(&["display-file", "a.txt", "b.txt"])),
        Err(UsageError::UnexpectedArgument)
    );
}

#[test]
fn a_lone_dash_is_an_ordinary_argument() {
    match run(&args_of(&["print-text", "-"])) {
        Ok(Step::Done { output }) => assert_eq!(output, "-\n"),
        other => panic!("unexpected result: {:?}", other),
    }
}
