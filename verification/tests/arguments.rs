use zellij_console::action::ActionKind;
use zellij_console::classify::classify;
use zellij_console::interface::Interface;
use zellij_console::tokenize::tokenize;

fn strings(items: &[&str]) -> Vec<String> {
    items.iter().map(|s| String::from(*s)).collect()
}

fn pairs(items: &[(&str, &str)]) -> Vec<(String, String)> {
    items.iter().map(|(k, v)| (String::from(*k), String::from(*v))).collect()
}

#[test]
fn tokenize_lowercases_head_and_keeps_argument_casing() {
    let (head, args) = tokenize("  RuN  a  B ");
    assert_eq!(head, "run");
    assert_eq!(args, strings(&["a", "B"]));
}

#[test]
fn tokenize_of_empty_input_is_empty() {
    let (head, args) = tokenize("");
    assert_eq!(head, "");
    assert!(args.is_empty());
    let (head, args) = tokenize(" \t \n ");
    assert_eq!(head, "");
    assert!(args.is_empty());
}

#[test]
fn tokenize_splits_on_unicode_whitespace() {
    let (head, args) = tokenize("help\u{00A0}x\u{2003}y");
    assert_eq!(head, "help");
    assert_eq!(args, strings(&["x", "y"]));
}

#[test]
fn case_folding_leaves_non_ascii_characters_alone() {
    let (head, args) = tokenize("Édit Ok");
    assert_eq!(head, "Édit");
    assert_eq!(args, strings(&["Ok"]));
    assert_eq!(
        classify("edit Résumé.txt", Interface::Console),
        ActionKind::Edit { path: String::from("Résumé.txt"), line: None }
    );
}

#[test]
fn edit_extracts_a_trailing_line_number() {
    assert_eq!(
        classify("edit foo/bar.txt 42", Interface::Console),
        ActionKind::Edit { path: String::from("foo/bar.txt"), line: Some(42) }
    );
}

#[test]
fn edit_keeps_a_non_numeric_tail_in_the_path() {
    assert_eq!(
        classify("edit foo bar", Interface::Console),
        ActionKind::Edit { path: String::from("foo bar"), line: None }
    );
}

#[test]
fn edit_with_no_arguments_has_empty_path() {
    assert_eq!(
        classify("edit", Interface::Console),
        ActionKind::Edit { path: String::new(), line: None }
    );
}

#[test]
fn edit_with_only_a_number_has_empty_path() {
    assert_eq!(
        classify("edit 42", Interface::Console),
        ActionKind::Edit { path: String::new(), line: Some(42) }
    );
}

#[test]
fn edit_accepts_a_plus_signed_line_number() {
    assert_eq!(
        classify("edit f +7", Interface::Console),
        ActionKind::Edit { path: String::from("f"), line: Some(7) }
    );
}

#[test]
fn edit_treats_an_overflowing_number_as_path() {
    assert_eq!(
        classify("edit f 99999999999999999999999999", Interface::Console),
        ActionKind::Edit {
            path: String::from("f 99999999999999999999999999"),
            line: None,
        }
    );
}

#[test]
fn new_pane_joins_all_tokens_verbatim() {
    assert_eq!(
        classify("new-pane some dir 42", Interface::Console),
        ActionKind::NewPane { path: String::from("some dir 42") }
    );
    assert_eq!(
        classify("np", Interface::Console),
        ActionKind::NewPane { path: String::new() }
    );
}

#[test]
fn run_parses_flags_and_environment() {
    assert_eq!(
        classify("run prog a b ---cwd /tmp ---env K V", Interface::Console),
        ActionKind::Run {
            executable: String::from("prog"),
            args: strings(&["a", "b"]),
            cwd: Some(String::from("/tmp")),
            env: pairs(&[("K", "V")]),
        }
    );
}

#[test]
fn run_last_cwd_occurrence_wins() {
    assert_eq!(
        classify("run p ---cwd one ---cwd two", Interface::Console),
        ActionKind::Run {
            executable: String::from("p"),
            args: Vec::new(),
            cwd: Some(String::from("two")),
            env: Vec::new(),
        }
    );
}

#[test]
fn run_trailing_cwd_flag_clears_the_override() {
    assert_eq!(
        classify("run p ---cwd one ---cwd", Interface::Console),
        ActionKind::Run {
            executable: String::from("p"),
            args: Vec::new(),
            cwd: None,
            env: Vec::new(),
        }
    );
}

#[test]
fn run_environment_mode_is_one_way() {
    assert_eq!(
        classify("run p ---env a b c d", Interface::Console),
        ActionKind::Run {
            executable: String::from("p"),
            args: Vec::new(),
            cwd: None,
            env: pairs(&[("a", "b"), ("c", "d")]),
        }
    );
}

#[test]
fn run_drops_an_unmatched_trailing_environment_key() {
    assert_eq!(
        classify("run p ---env K", Interface::Console),
        ActionKind::Run {
            executable: String::from("p"),
            args: Vec::new(),
            cwd: None,
            env: Vec::new(),
        }
    );
}

#[test]
fn run_without_executable_before_env_has_empty_path() {
    assert_eq!(
        classify("run ---env K V", Interface::Console),
        ActionKind::Run {
            executable: String::new(),
            args: Vec::new(),
            cwd: None,
            env: pairs(&[("K", "V")]),
        }
    );
}

#[test]
fn run_with_no_arguments_is_all_defaults() {
    assert_eq!(
        classify("run", Interface::Console),
        ActionKind::Run {
            executable: String::new(),
            args: Vec::new(),
            cwd: None,
            env: Vec::new(),
        }
    );
}

#[test]
fn run_flag_after_executable_still_collects_arguments() {
    assert_eq!(
        classify("run p one ---cwd /w two", Interface::Console),
        ActionKind::Run {
            executable: String::from("p"),
            args: strings(&["one", "two"]),
            cwd: Some(String::from("/w")),
            env: Vec::new(),
        }
    );
}
