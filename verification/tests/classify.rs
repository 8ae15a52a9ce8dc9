use zellij_console::action::{ActionKind, ResolvedAction};
use zellij_console::classify::{classify, classify_and_filter, restrict};
use zellij_console::grammar::{count_visible, grammar_table, EntryKind, HelpScope};
use zellij_console::interface::Interface;
use zellij_console::selection::Selection;

fn default_action_for(kind: EntryKind, calling: Interface) -> ActionKind {
    let selection_for = |scope: HelpScope| {
        if matches!(calling, Interface::Pipe) {
            Selection::Unbounded
        } else {
            Selection::Cursor { row: 0, bound: count_visible(scope) }
        }
    };
    match kind {
        EntryKind::HelpAll => ActionKind::Help {
            scope: HelpScope::AllCommands,
            selection: selection_for(HelpScope::AllCommands),
        },
        EntryKind::HelpConsole => ActionKind::Help {
            scope: HelpScope::ConsoleCommands,
            selection: selection_for(HelpScope::ConsoleCommands),
        },
        EntryKind::HelpPipe => ActionKind::Help {
            scope: HelpScope::PipeCommands,
            selection: selection_for(HelpScope::PipeCommands),
        },
        EntryKind::DetachEveryone => ActionKind::DetachEveryone,
        EntryKind::DetachMe => ActionKind::DetachMe,
        EntryKind::DetachOthers => ActionKind::DetachOthers,
        EntryKind::Edit => ActionKind::Edit { path: String::new(), line: None },
        EntryKind::NewPane => ActionKind::NewPane { path: String::new() },
        EntryKind::Run => ActionKind::Run {
            executable: String::new(),
            args: Vec::new(),
            cwd: None,
            env: Vec::new(),
        },
    }
}

#[test]
fn classify_is_idempotent() {
    for text in ["help", "edit a/b 7", "run x ---cwd /t", "nonsense", "", "  "] {
        for calling in [Interface::All, Interface::Console, Interface::Pipe] {
            assert_eq!(classify(text, calling), classify(text, calling));
            assert_eq!(classify_and_filter(text, calling), classify_and_filter(text, calling));
        }
    }
}

#[test]
fn every_alias_classifies_to_its_entry() {
    for entry in grammar_table() {
        assert!(!entry.aliases.is_empty());
        for alias in &entry.aliases {
            for calling in [Interface::All, Interface::Console, Interface::Pipe] {
                let got = classify(alias, calling);
                assert_eq!(got, default_action_for(entry.kind, calling), "alias {alias}");
            }
        }
    }
}

#[test]
fn head_token_matching_is_case_insensitive() {
    assert_eq!(
        classify("HELP", Interface::All),
        classify("help", Interface::All)
    );
    assert_eq!(classify("DeTaCh-Me", Interface::All), ActionKind::DetachMe);
    assert_eq!(classify("NP somewhere", Interface::All), ActionKind::NewPane {
        path: String::from("somewhere")
    });
}

#[test]
fn unknown_head_token_is_unrecognized() {
    assert_eq!(classify("frobnicate", Interface::Console), ActionKind::Unrecognized);
    assert_eq!(classify("helpp", Interface::Console), ActionKind::Unrecognized);
    assert_eq!(classify("detach", Interface::Console), ActionKind::Unrecognized);
}

#[test]
fn console_only_action_is_unavailable_through_pipe() {
    let resolved = classify_and_filter("detach-me", Interface::Pipe);
    assert_eq!(
        resolved,
        ResolvedAction { kind: ActionKind::DetachMe, rejected_by: Some(Interface::Pipe) }
    );
    let unrestricted = classify_and_filter("detach-me", Interface::All);
    assert_eq!(
        unrestricted,
        ResolvedAction { kind: ActionKind::DetachMe, rejected_by: None }
    );
}

#[test]
fn console_only_action_passes_on_console() {
    let resolved = classify_and_filter("edit notes.txt", Interface::Console);
    assert_eq!(resolved.rejected_by, None);
    assert_eq!(
        resolved.kind,
        ActionKind::Edit { path: String::from("notes.txt"), line: None }
    );
}

#[test]
fn unrestricted_action_passes_through_pipe() {
    let resolved = classify_and_filter("detach-everyone", Interface::Pipe);
    assert_eq!(
        resolved,
        ResolvedAction { kind: ActionKind::DetachEveryone, rejected_by: None }
    );
}

#[test]
fn unrecognized_is_never_wrapped() {
    for calling in [Interface::All, Interface::Console, Interface::Pipe] {
        let resolved = classify_and_filter("zzz", calling);
        assert_eq!(
            resolved,
            ResolvedAction { kind: ActionKind::Unrecognized, rejected_by: None }
        );
    }
}

#[test]
fn restrict_wraps_only_for_foreign_interface() {
    let wrapped = restrict(ActionKind::DetachOthers, Interface::Pipe);
    assert_eq!(wrapped.rejected_by, Some(Interface::Pipe));
    assert_eq!(wrapped.kind, ActionKind::DetachOthers);
    let passed = restrict(ActionKind::DetachOthers, Interface::Console);
    assert_eq!(passed.rejected_by, None);
    let free = restrict(ActionKind::DetachEveryone, Interface::Pipe);
    assert_eq!(free.rejected_by, None);
}

#[test]
fn help_selection_depends_on_interface() {
    assert_eq!(
        classify("help", Interface::Console),
        ActionKind::Help {
            scope: HelpScope::AllCommands,
            selection: Selection::Cursor { row: 0, bound: 9 },
        }
    );
    assert_eq!(
        classify("helppipe", Interface::Console),
        ActionKind::Help {
            scope: HelpScope::PipeCommands,
            selection: Selection::Cursor { row: 0, bound: 4 },
        }
    );
    assert_eq!(
        classify("help", Interface::Pipe),
        ActionKind::Help { scope: HelpScope::AllCommands, selection: Selection::Unbounded }
    );
}

#[test]
fn arguments_are_parsed_even_when_rejected() {
    let resolved = classify_and_filter("edit a b 3", Interface::Pipe);
    assert_eq!(resolved.rejected_by, Some(Interface::Pipe));
    assert_eq!(
        resolved.kind,
        ActionKind::Edit { path: String::from("a b"), line: Some(3) }
    );
}

#[test]
fn should_execute_refuses_unrecognized_and_unforced_unavailable() {
    let unrecognized = classify_and_filter("", Interface::Console);
    assert!(!unrecognized.should_execute(false));
    assert!(!unrecognized.should_execute(true));
    let unavailable = classify_and_filter("detach-me", Interface::Pipe);
    assert!(!unavailable.should_execute(false));
    assert!(unavailable.should_execute(true));
    let available = classify_and_filter("detach-me", Interface::Console);
    assert!(available.should_execute(false));
}
