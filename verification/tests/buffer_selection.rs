use zellij_console::action::ActionKind;
use zellij_console::buffer::CommandBuffer;
use zellij_console::environment::{apply_environment, EnvironmentFrom};
use zellij_console::grammar::{count_visible, grammar_table, visible_entries, HelpScope};
use zellij_console::interface::Interface;
use zellij_console::selection::Selection;

#[test]
fn selection_wraps_at_both_ends() {
    let n: usize = 9;
    assert_eq!(
        (Selection::Cursor { row: 0, bound: n }).retreat(),
        Selection::Cursor { row: n - 1, bound: n }
    );
    assert_eq!(
        (Selection::Cursor { row: n - 1, bound: n }).advance(),
        Selection::Cursor { row: 0, bound: n }
    );
    assert_eq!(
        (Selection::Cursor { row: 3, bound: n }).advance(),
        Selection::Cursor { row: 4, bound: n }
    );
    assert_eq!(
        (Selection::Cursor { row: 3, bound: n }).retreat(),
        Selection::Cursor { row: 2, bound: n }
    );
    assert_eq!(Selection::Unbounded.advance(), Selection::Unbounded);
    assert_eq!(Selection::Unbounded.retreat(), Selection::Unbounded);
}

#[test]
fn empty_buffer_is_unrecognized_with_length_zero() {
    let buffer = CommandBuffer::new();
    assert_eq!(buffer.len(), 0);
    assert_eq!(buffer.text(), "");
    assert_eq!(buffer.action().kind, ActionKind::Unrecognized);
    assert_eq!(buffer.action().rejected_by, None);
}

#[test]
fn typing_reclassifies_on_every_character() {
    let mut buffer = CommandBuffer::new();
    buffer.push('h', Interface::Console);
    // A single `h` is already a help alias.
    assert!(matches!(buffer.action().kind, ActionKind::Help { .. }));
    buffer.push('e', Interface::Console);
    assert_eq!(buffer.action().kind, ActionKind::Unrecognized);
    buffer.push('l', Interface::Console);
    assert_eq!(buffer.action().kind, ActionKind::Unrecognized);
    buffer.push('p', Interface::Console);
    assert_eq!(
        buffer.action().kind,
        ActionKind::Help {
            scope: HelpScope::AllCommands,
            selection: Selection::Cursor { row: 0, bound: 9 },
        }
    );
    assert_eq!(buffer.text(), "help");
    assert_eq!(buffer.len(), 4);
}

#[test]
fn pop_returns_the_removed_character_and_reclassifies() {
    let mut buffer = CommandBuffer::new();
    buffer.set("help", Interface::Console);
    let removed = buffer.pop(Interface::Console);
    assert_eq!(removed, Some('p'));
    assert_eq!(buffer.text(), "hel");
    assert_eq!(buffer.action().kind, ActionKind::Unrecognized);
    let mut empty = CommandBuffer::new();
    assert_eq!(empty.pop(Interface::Console), None);
}

#[test]
fn len_is_the_utf8_byte_length() {
    let mut buffer = CommandBuffer::new();
    buffer.set("help", Interface::Console);
    assert_eq!(buffer.len(), 4);
    buffer.set("É", Interface::Console);
    assert_eq!(buffer.len(), 2);
    buffer.set("héllo €", Interface::Console);
    assert_eq!(buffer.len(), "héllo €".len());
    let removed = buffer.pop(Interface::Console);
    assert_eq!(removed, Some('€'));
    assert_eq!(buffer.len(), "héllo ".len());
}

#[test]
fn clear_discards_text_and_action() {
    let mut buffer = CommandBuffer::new();
    buffer.set("detach-me", Interface::Pipe);
    assert_eq!(buffer.action().rejected_by, Some(Interface::Pipe));
    buffer.clear();
    assert_eq!(buffer.len(), 0);
    assert_eq!(buffer.action().kind, ActionKind::Unrecognized);
    assert_eq!(buffer.action().rejected_by, None);
}

#[test]
fn selection_moves_only_inside_a_help_action() {
    let mut buffer = CommandBuffer::new();
    buffer.set("edit f", Interface::Console);
    let before = buffer.action().clone();
    buffer.selection_down();
    buffer.selection_up();
    assert_eq!(buffer.action(), &before);

    buffer.set("help", Interface::Console);
    buffer.selection_down();
    buffer.selection_down();
    assert_eq!(
        buffer.action().kind,
        ActionKind::Help {
            scope: HelpScope::AllCommands,
            selection: Selection::Cursor { row: 2, bound: 9 },
        }
    );
    buffer.selection_up();
    buffer.selection_up();
    buffer.selection_up();
    assert_eq!(
        buffer.action().kind,
        ActionKind::Help {
            scope: HelpScope::AllCommands,
            selection: Selection::Cursor { row: 8, bound: 9 },
        }
    );
}

#[test]
fn selection_is_a_no_op_without_a_cursor() {
    let mut buffer = CommandBuffer::new();
    buffer.set("help", Interface::Pipe);
    let before = buffer.action().clone();
    buffer.selection_down();
    buffer.selection_up();
    assert_eq!(buffer.action(), &before);
}

#[test]
fn confirming_a_selection_substitutes_the_canonical_name() {
    let mut buffer = CommandBuffer::new();
    buffer.set("help", Interface::Console);
    buffer.selection_down();
    buffer.confirm_selection();
    assert_eq!(buffer.text(), "HelpPane");
    assert_eq!(
        buffer.action().kind,
        ActionKind::Help {
            scope: HelpScope::ConsoleCommands,
            selection: Selection::Cursor { row: 0, bound: 9 },
        }
    );
}

#[test]
fn confirming_without_a_cursor_changes_nothing() {
    let mut buffer = CommandBuffer::new();
    buffer.set("help", Interface::Pipe);
    buffer.confirm_selection();
    assert_eq!(buffer.text(), "help");
    let mut other = CommandBuffer::new();
    other.set("edit f", Interface::Console);
    other.confirm_selection();
    assert_eq!(other.text(), "edit f");
}

#[test]
fn visible_counts_match_the_table() {
    assert_eq!(grammar_table().len(), 9);
    assert_eq!(count_visible(HelpScope::AllCommands), 9);
    assert_eq!(count_visible(HelpScope::ConsoleCommands), 9);
    assert_eq!(count_visible(HelpScope::PipeCommands), 4);
}

#[test]
fn pipe_listing_shows_only_unrestricted_entries() {
    let rows = visible_entries(HelpScope::PipeCommands);
    let names: Vec<&str> = rows.iter().map(|e| e.aliases[0].as_str()).collect();
    assert_eq!(names, vec!["Help", "HelpPane", "HelpPipe", "DetachEveryone"]);
    for row in &rows {
        assert!(matches!(row.interface, Interface::All));
    }
}

#[test]
fn listing_exposes_names_aliases_and_descriptions() {
    let rows = visible_entries(HelpScope::AllCommands);
    assert_eq!(rows.len(), 9);
    let first = &rows[0];
    assert_eq!(
        first.aliases,
        vec!["Help", "HelpAll", "Help-All", "Help_All", "h", "?"]
    );
    assert_eq!(first.description, "Show the list of all commands");
    for row in &rows {
        assert!(!row.aliases.is_empty());
        assert!(!row.description.is_empty());
    }
}

#[test]
fn environment_choice_toggles() {
    let mut choice = EnvironmentFrom::default();
    assert_eq!(choice, EnvironmentFrom::ZellijSession);
    choice.progress();
    assert_eq!(choice, EnvironmentFrom::DefaultShell);
    choice.progress();
    assert_eq!(choice, EnvironmentFrom::ZellijSession);
}

#[test]
fn shell_environment_wraps_the_command_line() {
    let (exe, args) = apply_environment(
        String::from("cargo"),
        vec![String::from("build")],
        EnvironmentFrom::ZellijSession,
    );
    assert_eq!(exe, "cargo");
    assert_eq!(args, vec![String::from("build")]);

    let (exe, args) = apply_environment(
        String::from("cargo"),
        vec![String::from("build")],
        EnvironmentFrom::DefaultShell,
    );
    assert_eq!(exe, "fish");
    assert_eq!(args, vec![String::from("-c"), String::from("cargo"), String::from("build")]);
}
