//! The classifier and the interface capability filter.
//!
//! Classification matches the head token against the grammar table's alias
//! lists (first match in table order wins) and runs the matching entry's
//! argument rule; filtering wraps a syntactically valid but
//! interface-illegal action into an unavailability record. Filtering runs
//! after classification, never before, so argument parsing still occurs
//! for actions that will be rejected. Classification performs no
//! input/output and is a pure function of the text and the calling
//! interface, so re-running it on the same input yields the same result.

use vstd::prelude::*;
use crate::interface::{Interface, spec_tag_allows, tag_allows};
use crate::grammar::{
    EntryKind,
    HelpScope,
    GrammarEntry,
    spec_table,
    spec_count,
    grammar_table,
    count_visible,
    entry_interface,
};
use crate::action::{
    ActionKind,
    ActionModel,
    ResolvedAction,
    ResolvedModel,
    spec_action_tag,
    spec_action_wf,
    entry_kind_of,
};
use crate::selection::Selection;
use crate::text::{
    spec_lower,
    spec_join,
    spec_parse_usize,
    chars_eq_str,
    chars_to_string,
    copy_chars,
    join_tokens,
    lower_char,
    parse_usize_chars,
    str_to_chars,
    tokens_to_strings,
};
use crate::tokenize::{spec_head, spec_args, head_and_args};
use vstd::string::StrSliceExecFns;

verus! {

// ---------------------------------------------------------------------
// Alias lookup
// ---------------------------------------------------------------------
/// Whether the (already case-folded) head token matches one of the
/// aliases of a grammar entry; aliases are matched case-insensitively.
pub open spec fn spec_entry_matches(head: Seq<char>, aliases: Seq<Seq<char>>) -> bool {
    exists|j: int| 0 <= j < aliases.len() && spec_lower(#[trigger] aliases[j]) == head
}

/// The first entry of the grammar table, at or after position `i`, whose
/// alias list matches the head token. Table order is the authoritative
/// tie-break: the scan is in order and the first match wins.
pub open spec fn spec_lookup_from(head: Seq<char>, i: int) -> Option<int>
    decreases spec_table().len() - i,
{
    if i < 0 || i >= spec_table().len() {
        None
    } else if spec_entry_matches(head, spec_table()[i].aliases) {
        Some(i)
    } else {
        spec_lookup_from(head, i + 1)
    }
}

/// The table position of the entry the head token selects, if any.
pub open spec fn spec_lookup(head: Seq<char>) -> Option<int> {
    spec_lookup_from(head, 0)
}

/// Whether one alias, in display casing, matches the case-folded head.
fn alias_matches(head: &Vec<char>, alias: &String) -> (r: bool)
    ensures
        r == (spec_lower(alias@) == head@),
{
    let a = alias.as_str();
    let n: usize = a.unicode_len();
    if n != head.len() {
        return false;
    }
    let mut i: usize = 0;
    while i < n
        invariant
            i <= n,
            n == a@.len(),
            n == head@.len(),
            a@ == alias@,
            forall|j: int| 0 <= j < i ==> spec_lower(alias@)[j] == head@[j],
        decreases n - i,
    {
        if lower_char(a.get_char(i)) != head[i] {
            return false;
        }
        i = i + 1;
    }
    proof {
        assert(spec_lower(alias@) =~= head@);
    }
    true
}

/// Whether any alias of one grammar entry matches the head.
fn entry_matches(head: &Vec<char>, e: &GrammarEntry) -> (r: bool)
    ensures
        r == spec_entry_matches(head@, e@.aliases),
{
    let mut j: usize = 0;
    while j < e.aliases.len()
        invariant
            j <= e.aliases@.len(),
            forall|k: int| 0 <= k < j ==> spec_lower(#[trigger] e@.aliases[k]) != head@,
        decreases e.aliases@.len() - j,
    {
        if alias_matches(head, &e.aliases[j]) {
            proof {
                assert(e@.aliases[j as int] == e.aliases@[j as int]@);
            }
            return true;
        }
        proof {
            assert(e@.aliases[j as int] == e.aliases@[j as int]@);
        }
        j = j + 1;
    }
    false
}

// ---------------------------------------------------------------------
// Per-kind argument rules
// ---------------------------------------------------------------------
/// The `Edit` argument rule: the last token is tentatively a line number;
/// if it reads as a non-negative integer it is extracted, otherwise it
/// stays part of the path. The path is the remaining tokens joined by
/// single spaces, and may legitimately be empty.
pub open spec fn spec_edit_action(args: Seq<Seq<char>>) -> ActionModel {
    if args.len() == 0 {
        ActionModel::Edit { path: Seq::empty(), line: None }
    } else {
        match spec_parse_usize(args.last()) {
            Some(n) => ActionModel::Edit { path: spec_join(args.drop_last()), line: Some(n) },
            None => ActionModel::Edit { path: spec_join(args), line: None },
        }
    }
}

/// Runtime counterpart of [`spec_edit_action`].
fn edit_action(args: Vec<Vec<char>>) -> (r: ActionKind)
    ensures
        r@ == spec_edit_action(args.deep_view()),
{
    let ghost whole: Seq<Seq<char>> = args.deep_view();
    if args.len() == 0 {
        let r = ActionKind::Edit { path: String::new(), line: None };
        proof {
            assert(r@ =~~= spec_edit_action(whole));
        }
        r
    } else {
        let last = &args[args.len() - 1];
        proof {
            assert(last@ == whole.last());
        }
        match parse_usize_chars(last) {
            Some(n) => {
                let mut head_part = args;
                let _ = head_part.pop();
                proof {
                    assert(head_part.deep_view() =~~= whole.drop_last());
                }
                let path = chars_to_string(&join_tokens(&head_part));
                let r = ActionKind::Edit { path, line: Some(n) };
                proof {
                    assert(r@ =~~= spec_edit_action(whole));
                }
                r
            }
            None => {
                let path = chars_to_string(&join_tokens(&args));
                let r = ActionKind::Edit { path, line: None };
                proof {
                    assert(r@ =~~= spec_edit_action(whole));
                }
                r
            }
        }
    }
}

/// The state of the single-pass `Run` argument scan.
#[verifier::ext_equal]
pub struct RunScan {
    /// The first non-flag token seen outside environment mode, if any.
    pub executable: Option<Seq<char>>,
    /// The non-flag tokens after the executable, outside environment mode.
    pub args: Seq<Seq<char>>,
    /// The working-directory override; the last `---cwd` occurrence wins.
    pub cwd: Option<Seq<char>>,
    /// The environment overrides collected in environment mode, as pairs
    /// in the order typed: applied in order, a repeated key's last
    /// occurrence wins.
    pub env: Seq<(Seq<char>, Seq<char>)>,
    /// Whether `---env` has been seen; the switch is one-way.
    pub env_mode: bool,
}

/// The scan state before any token is consumed.
pub open spec fn spec_run_init() -> RunScan {
    RunScan {
        executable: None,
        args: Seq::empty(),
        cwd: None,
        env: Seq::empty(),
        env_mode: false,
    }
}

/// The `Run` argument rule, one token at a time: `---cwd` consumes the
/// next token as the working directory (or clears it when nothing
/// follows); `---env` switches the rest of the scan into key-value
/// collection, with an unmatched trailing key dropped; the first other
/// token is the executable and later ones are its arguments.
pub open spec fn spec_run_rec(toks: Seq<Seq<char>>, st: RunScan) -> RunScan
    decreases toks.len(),
{
    if toks.len() == 0 {
        st
    } else if st.env_mode {
        if toks.len() == 1 {
            st
        } else {
            spec_run_rec(
                toks.skip(2),
                RunScan { env: st.env.push((toks[0], toks[1])), ..st },
            )
        }
    } else if toks[0] == "---cwd"@ {
        if toks.len() == 1 {
            RunScan { cwd: None, ..st }
        } else {
            spec_run_rec(toks.skip(2), RunScan { cwd: Some(toks[1]), ..st })
        }
    } else if toks[0] == "---env"@ {
        spec_run_rec(toks.drop_first(), RunScan { env_mode: true, ..st })
    } else if st.executable is None {
        spec_run_rec(toks.drop_first(), RunScan { executable: Some(toks[0]), ..st })
    } else {
        spec_run_rec(toks.drop_first(), RunScan { args: st.args.push(toks[0]), ..st })
    }
}

/// The `Run` action the argument tokens produce; a missing executable
/// degrades to the empty path rather than failing.
pub open spec fn spec_run_action(args: Seq<Seq<char>>) -> ActionModel {
    let st = spec_run_rec(args, spec_run_init());
    ActionModel::Run {
        executable: match st.executable {
            Some(s) => s,
            None => Seq::empty(),
        },
        args: st.args,
        cwd: st.cwd,
        env: st.env,
    }
}

/// Runtime counterpart of [`spec_run_action`]: a linear single pass with
/// no backtracking.
fn run_action(args: Vec<Vec<char>>) -> (r: ActionKind)
    ensures
        r@ == spec_run_action(args.deep_view()),
{
    let ghost whole: Seq<Seq<char>> = args.deep_view();
    let mut executable: Option<Vec<char>> = None;
    let mut out_args: Vec<Vec<char>> = Vec::new();
    let mut cwd: Option<Vec<char>> = None;
    let mut env: Vec<(Vec<char>, Vec<char>)> = Vec::new();
    let mut env_mode: bool = false;
    let mut i: usize = 0;
    proof {
        assert(whole.skip(0) =~= whole);
        assert(
            (RunScan {
                executable: executable.deep_view(),
                args: out_args.deep_view(),
                cwd: cwd.deep_view(),
                env: env.deep_view(),
                env_mode,
            }) =~~= spec_run_init());
    }
    while i < args.len()
        invariant
            i <= args@.len(),
            whole == args.deep_view(),
            (spec_run_rec(whole, spec_run_init()) == spec_run_rec(
                whole.skip(i as int),
                RunScan {
                    executable: executable.deep_view(),
                    args: out_args.deep_view(),
                    cwd: cwd.deep_view(),
                    env: env.deep_view(),
                    env_mode,
                },
            )),
        decreases args@.len() - i,
    {
        let ghost rem: Seq<Seq<char>> = whole.skip(i as int);
        let ghost st: RunScan = RunScan {
            executable: executable.deep_view(),
            args: out_args.deep_view(),
            cwd: cwd.deep_view(),
            env: env.deep_view(),
            env_mode,
        };
        proof {
            assert(rem[0] == whole[i as int]);
            assert(whole[i as int] == args@[i as int]@);
            assert(rem.drop_first() =~= whole.skip(i as int + 1));
        }
        let tok = &args[i];
        if env_mode {
            if i + 1 < args.len() {
                proof {
                    assert(rem[1] == whole[i as int + 1]);
                    assert(whole[i as int + 1] == args@[i as int + 1]@);
                    assert(rem.skip(2) =~= whole.skip(i as int + 2));
                }
                let key = copy_chars(tok);
                let val = copy_chars(&args[i + 1]);
                let ghost prev_env: Seq<(Seq<char>, Seq<char>)> = env.deep_view();
                env.push((key, val));
                proof {
                    assert(env.deep_view() =~~= prev_env.push((rem[0], rem[1])));
                    assert(
                        (RunScan {
                            executable: executable.deep_view(),
                            args: out_args.deep_view(),
                            cwd: cwd.deep_view(),
                            env: env.deep_view(),
                            env_mode,
                        }) =~~= (RunScan { env: st.env.push((rem[0], rem[1])), ..st }));
                }
                i = i + 2;
            } else {
                // A trailing key with no value is dropped.
                i = i + 1;
                proof {
                    assert(rem.len() == 1);
                    assert(whole.skip(i as int) =~= Seq::<Seq<char>>::empty());
                }
            }
        } else if chars_eq_str(tok, "---cwd") {
            if i + 1 < args.len() {
                proof {
                    assert(rem[1] == whole[i as int + 1]);
                    assert(whole[i as int + 1] == args@[i as int + 1]@);
                    assert(rem.skip(2) =~= whole.skip(i as int + 2));
                }
                cwd = Some(copy_chars(&args[i + 1]));
                proof {
                    assert(
                        (RunScan {
                            executable: executable.deep_view(),
                            args: out_args.deep_view(),
                            cwd: cwd.deep_view(),
                            env: env.deep_view(),
                            env_mode,
                        }) =~~= (RunScan { cwd: Some(rem[1]), ..st }));
                }
                i = i + 2;
            } else {
                cwd = None;
                i = i + 1;
                proof {
                    assert(rem.len() == 1);
                    assert(whole.skip(i as int) =~= Seq::<Seq<char>>::empty());
                    assert(
                        (RunScan {
                            executable: executable.deep_view(),
                            args: out_args.deep_view(),
                            cwd: cwd.deep_view(),
                            env: env.deep_view(),
                            env_mode,
                        }) =~~= (RunScan { cwd: None, ..st }));
                }
            }
        } else if chars_eq_str(tok, "---env") {
            env_mode = true;
            proof {
                assert(
                    (RunScan {
                        executable: executable.deep_view(),
                        args: out_args.deep_view(),
                        cwd: cwd.deep_view(),
                        env: env.deep_view(),
                        env_mode,
                    }) =~~= (RunScan { env_mode: true, ..st }));
            }
            i = i + 1;
        } else if executable.is_none() {
            executable = Some(copy_chars(tok));
            proof {
                assert(
                    (RunScan {
                        executable: executable.deep_view(),
                        args: out_args.deep_view(),
                        cwd: cwd.deep_view(),
                        env: env.deep_view(),
                        env_mode,
                    }) =~~= (RunScan { executable: Some(rem[0]), ..st }));
            }
            i = i + 1;
        } else {
            let ghost prev_args: Seq<Seq<char>> = out_args.deep_view();
            out_args.push(copy_chars(tok));
            proof {
                assert(out_args.deep_view() =~~= prev_args.push(rem[0]));
                assert(
                    (RunScan {
                        executable: executable.deep_view(),
                        args: out_args.deep_view(),
                        cwd: cwd.deep_view(),
                        env: env.deep_view(),
                        env_mode,
                    }) =~~= (RunScan { args: st.args.push(rem[0]), ..st }));
            }
            i = i + 1;
        }
    }
    proof {
        assert(whole.skip(whole.len() as int) =~= Seq::<Seq<char>>::empty());
    }
    let exe_s: String = match &executable {
        Some(v) => chars_to_string(v),
        None => String::new(),
    };
    let args_s = tokens_to_strings(&out_args);
    let cwd_s: Option<String> = match &cwd {
        Some(v) => Some(chars_to_string(v)),
        None => None,
    };
    let mut env_s: Vec<(String, String)> = Vec::new();
    let mut j: usize = 0;
    while j < env.len()
        invariant
            j <= env@.len(),
            env_s.deep_view() =~~= env.deep_view().take(j as int),
        decreases env@.len() - j,
    {
        let ks = chars_to_string(&env[j].0);
        let vs = chars_to_string(&env[j].1);
        let ghost prev: Seq<(Seq<char>, Seq<char>)> = env_s.deep_view();
        env_s.push((ks, vs));
        proof {
            assert(env_s.deep_view() =~~= prev.push(env.deep_view()[j as int]));
            assert(env.deep_view().take(j as int + 1) =~= env.deep_view().take(j as int).push(
                env.deep_view()[j as int],
            ));
        }
        j = j + 1;
    }
    proof {
        assert(env.deep_view().take(env@.len() as int) =~= env.deep_view());
    }
    let r = ActionKind::Run { executable: exe_s, args: args_s, cwd: cwd_s, env: env_s };
    proof {
        assert(r@ =~~= spec_run_action(whole));
    }
    r
}

// ---------------------------------------------------------------------
// Help selection construction
// ---------------------------------------------------------------------
/// The selection a freshly classified help action carries: a cursor on the
/// first row when the calling interface supports row navigation, and no
/// cursor for the pipe, which cannot.
pub open spec fn spec_help_selection(calling: Interface, scope: HelpScope) -> Selection {
    match calling {
        Interface::Pipe => Selection::Unbounded,
        _ => Selection::Cursor { row: 0, bound: spec_count(scope) as usize },
    }
}

fn help_selection(calling: Interface, scope: HelpScope) -> (r: Selection)
    ensures
        r == spec_help_selection(calling, scope),
{
    match calling {
        Interface::Pipe => Selection::Unbounded,
        _ => Selection::Cursor { row: 0, bound: count_visible(scope) },
    }
}

// ---------------------------------------------------------------------
// Classification
// ---------------------------------------------------------------------
/// The action a matched grammar entry builds from the argument tokens.
/// Kinds that take no arguments ignore all remaining tokens.
pub open spec fn spec_action_for(
    k: EntryKind,
    args: Seq<Seq<char>>,
    calling: Interface,
) -> ActionModel {
    match k {
        EntryKind::HelpAll => ActionModel::Help {
            scope: HelpScope::AllCommands,
            selection: spec_help_selection(calling, HelpScope::AllCommands),
        },
        EntryKind::HelpConsole => ActionModel::Help {
            scope: HelpScope::ConsoleCommands,
            selection: spec_help_selection(calling, HelpScope::ConsoleCommands),
        },
        EntryKind::HelpPipe => ActionModel::Help {
            scope: HelpScope::PipeCommands,
            selection: spec_help_selection(calling, HelpScope::PipeCommands),
        },
        EntryKind::DetachEveryone => ActionModel::DetachEveryone,
        EntryKind::DetachMe => ActionModel::DetachMe,
        EntryKind::DetachOthers => ActionModel::DetachOthers,
        EntryKind::Edit => spec_edit_action(args),
        EntryKind::NewPane => ActionModel::NewPane { path: spec_join(args) },
        EntryKind::Run => spec_run_action(args),
    }
}

fn action_for(k: EntryKind, args: Vec<Vec<char>>, calling: Interface) -> (r: ActionKind)
    ensures
        r@ == spec_action_for(k, args.deep_view(), calling),
{
    match k {
        EntryKind::HelpAll => ActionKind::Help {
            scope: HelpScope::AllCommands,
            selection: help_selection(calling, HelpScope::AllCommands),
        },
        EntryKind::HelpConsole => ActionKind::Help {
            scope: HelpScope::ConsoleCommands,
            selection: help_selection(calling, HelpScope::ConsoleCommands),
        },
        EntryKind::HelpPipe => ActionKind::Help {
            scope: HelpScope::PipeCommands,
            selection: help_selection(calling, HelpScope::PipeCommands),
        },
        EntryKind::DetachEveryone => ActionKind::DetachEveryone,
        EntryKind::DetachMe => ActionKind::DetachMe,
        EntryKind::DetachOthers => ActionKind::DetachOthers,
        EntryKind::Edit => edit_action(args),
        EntryKind::NewPane => {
            let path = chars_to_string(&join_tokens(&args));
            ActionKind::NewPane { path }
        }
        EntryKind::Run => run_action(args),
    }
}

/// What classifying a line of text yields: the head token, case-folded,
/// selects the first grammar entry (in table order) with a matching alias,
/// and that entry's argument rule builds the action from the remaining
/// tokens; an empty or unmatched head yields `Unrecognized`.
pub open spec fn spec_classify(text: Seq<char>, calling: Interface) -> ActionModel {
    match spec_lookup(spec_head(text)) {
        None => ActionModel::Unrecognized,
        Some(k) => spec_action_for(spec_table()[k].kind, spec_args(text), calling),
    }
}

/// Classification over an already-split character buffer.
pub fn classify_chars(text: &Vec<char>, calling: Interface) -> (r: ActionKind)
    ensures
        r@ == spec_classify(text@, calling),
{
    let (head, args) = head_and_args(text);
    let table = grammar_table();
    let mut k: usize = 0;
    while k < table.len()
        invariant
            k <= table@.len(),
            table@.len() == spec_table().len(),
            forall|j: int| 0 <= j < table@.len() ==> #[trigger] table@[j]@ == spec_table()[j],
            head@ == spec_head(text@),
            args.deep_view() == spec_args(text@),
            spec_lookup(head@) == spec_lookup_from(head@, k as int),
        decreases table@.len() - k,
    {
        proof {
            assert(table@[k as int]@ == spec_table()[k as int]);
        }
        if entry_matches(&head, &table[k]) {
            return action_for(table[k].kind, args, calling);
        }
        k = k + 1;
    }
    ActionKind::Unrecognized
}

/// Classifies a line of text on behalf of `calling`:
/// `classify(text, calling_interface)` from the component contract. No
/// input/output, no failure: unknown or empty input yields
/// `Unrecognized`.
pub fn classify(text: &str, calling: Interface) -> (r: ActionKind)
    ensures
        r@ == spec_classify(text@, calling),
{
    let chars = str_to_chars(text);
    classify_chars(&chars, calling)
}

// ---------------------------------------------------------------------
// The interface capability filter
// ---------------------------------------------------------------------
/// What filtering an action yields: an `All` caller passes everything
/// through, `Unrecognized` is never wrapped, and otherwise an action whose
/// entry tag is neither `All` nor the calling interface is marked rejected
/// by that interface, argument payload kept intact.
pub open spec fn spec_restrict(a: ActionModel, calling: Interface) -> ResolvedModel {
    if a is Unrecognized || spec_tag_allows(spec_action_tag(a), calling) {
        ResolvedModel { kind: a, rejected_by: None }
    } else {
        ResolvedModel { kind: a, rejected_by: Some(calling) }
    }
}

/// Runtime counterpart of [`spec_restrict`]:
/// `restrict(action, calling_interface)` from the component contract.
pub fn restrict(action: ActionKind, calling: Interface) -> (r: ResolvedAction)
    ensures
        r@ == spec_restrict(action@, calling),
{
    let tag = match entry_kind_of(&action) {
        None => Interface::All,
        Some(k) => entry_interface(k),
    };
    let unrecognized = matches!(action, ActionKind::Unrecognized);
    if unrecognized || tag_allows(tag, calling) {
        ResolvedAction { kind: action, rejected_by: None }
    } else {
        ResolvedAction { kind: action, rejected_by: Some(calling) }
    }
}

/// The whole pipeline: classify, then filter, under one calling
/// interface.
pub open spec fn spec_resolve(text: Seq<char>, calling: Interface) -> ResolvedModel {
    spec_restrict(spec_classify(text, calling), calling)
}

/// Pipeline over an already-split character buffer.
pub fn classify_and_filter_chars(text: &Vec<char>, calling: Interface) -> (r: ResolvedAction)
    ensures
        r@ == spec_resolve(text@, calling),
{
    let action = classify_chars(text, calling);
    restrict(action, calling)
}

/// The pure pipeline the command buffer re-runs after every mutation:
/// classification followed by the capability filter.
pub fn classify_and_filter(text: &str, calling: Interface) -> (r: ResolvedAction)
    ensures
        r@ == spec_resolve(text@, calling),
{
    let chars = str_to_chars(text);
    classify_and_filter_chars(&chars, calling)
}

/// Everything the pipeline produces is well formed: help cursors cover
/// exactly their scope's rows starting at the first, and an unrecognized
/// result is never marked unavailable.
pub proof fn lemma_resolve_wf(text: Seq<char>, calling: Interface)
    ensures
        spec_action_wf(spec_resolve(text, calling)),
{
    match spec_classify(text, calling) {
        ActionModel::Help { scope, .. } => crate::grammar::lemma_count_bounds(scope),
        _ => (),
    }
}

} // verus!
