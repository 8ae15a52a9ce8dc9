//! The action grammar table: an enumerated, ordered set of action kinds,
//! each with a canonical name, accepted aliases, a one-line description and
//! the interface it is usable from. The table is built once, is immutable,
//! and its order is the authoritative tie-break for classification: the
//! first entry (in table order) with a matching alias wins.

use vstd::prelude::*;
use crate::interface::Interface;
use vstd::string::StringExecFns;

verus! {

/// The action kind family one grammar entry describes.
#[derive(Debug, Clone, Copy, PartialEq, Eq, Structural)]
pub enum EntryKind {
    HelpAll,
    HelpConsole,
    HelpPipe,
    DetachEveryone,
    DetachMe,
    DetachOthers,
    Edit,
    NewPane,
    Run,
}

/// Which subset of the grammar table a help listing shows.
#[derive(Debug, Clone, Copy, PartialEq, Eq, Structural)]
pub enum HelpScope {
    /// Every command.
    AllCommands,
    /// The commands usable from the interactive console.
    ConsoleCommands,
    /// The commands usable from the machine pipe.
    PipeCommands,
}

/// One row of the grammar table.
///
/// The alias list is never empty; its first element is the canonical name.
/// The `kind` tag selects the argument-parsing rule the classifier runs for
/// this entry.
#[derive(Debug, Clone)]
pub struct GrammarEntry {
    pub kind: EntryKind,
    pub aliases: Vec<String>,
    pub description: String,
    pub interface: Interface,
}

/// The mathematical model of a grammar entry.
#[verifier::ext_equal]
pub struct EntryModel {
    pub kind: EntryKind,
    pub aliases: Seq<Seq<char>>,
    pub description: Seq<char>,
    pub interface: Interface,
}

impl GrammarEntry {
    /// The canonical name of the entry: its first declared alias.
    pub fn canonical(&self) -> (r: &String)
        requires
            self@.aliases.len() >= 1,
        ensures
            r@ == self@.aliases[0],
    {
        &self.aliases[0]
    }
}

impl View for GrammarEntry {
    type V = EntryModel;

    open spec fn view(&self) -> EntryModel {
        EntryModel {
            kind: self.kind,
            aliases: self.aliases.deep_view(),
            description: self.description@,
            interface: self.interface,
        }
    }
}

/// The interface restriction each action kind is declared with. The help
/// and detach-everyone commands are usable everywhere; the remaining
/// commands act on a particular pane or client, which only the console
/// interface can identify.
pub open spec fn spec_entry_interface(k: EntryKind) -> Interface {
    match k {
        EntryKind::HelpAll => Interface::All,
        EntryKind::HelpConsole => Interface::All,
        EntryKind::HelpPipe => Interface::All,
        EntryKind::DetachEveryone => Interface::All,
        EntryKind::DetachMe => Interface::Console,
        EntryKind::DetachOthers => Interface::Console,
        EntryKind::Edit => Interface::Console,
        EntryKind::NewPane => Interface::Console,
        EntryKind::Run => Interface::Console,
    }
}

/// Runtime counterpart of [`spec_entry_interface`].
pub fn entry_interface(k: EntryKind) -> (r: Interface)
    ensures
        r == spec_entry_interface(k),
{
    match k {
        EntryKind::HelpAll => Interface::All,
        EntryKind::HelpConsole => Interface::All,
        EntryKind::HelpPipe => Interface::All,
        EntryKind::DetachEveryone => Interface::All,
        EntryKind::DetachMe => Interface::Console,
        EntryKind::DetachOthers => Interface::Console,
        EntryKind::Edit => Interface::Console,
        EntryKind::NewPane => Interface::Console,
        EntryKind::Run => Interface::Console,
    }
}

/// The declared aliases of each entry, in display casing; matching is
/// case-insensitive. The first alias is the canonical name.
pub open spec fn spec_aliases(k: EntryKind) -> Seq<Seq<char>> {
    match k {
        EntryKind::HelpAll => seq!["Help"@, "HelpAll"@, "Help-All"@, "Help_All"@, "h"@, "?"@],
        EntryKind::HelpConsole => seq!["HelpPane"@, "Help-Pane"@, "Help_Pane"@],
        EntryKind::HelpPipe => seq!["HelpPipe"@, "Help-Pipe"@, "Help_Pipe"@],
        EntryKind::DetachEveryone => seq![
            "DetachEveryone"@,
            "Detach-Everyone"@,
            "Detach_Everyone"@,
        ],
        EntryKind::DetachMe => seq!["DetachMe"@, "Detach-Me"@, "Detach_Me"@],
        EntryKind::DetachOthers => seq!["DetachOthers"@, "Detach-Others"@, "Detach_Others"@],
        EntryKind::Edit => seq!["Edit"@],
        EntryKind::NewPane => seq!["NewPane"@, "New-Pane"@, "New_Pane"@, "np"@],
        EntryKind::Run => seq!["Run"@],
    }
}

/// The one-line description of each entry, shown by the help listing.
pub open spec fn spec_description(k: EntryKind) -> Seq<char> {
    match k {
        EntryKind::HelpAll => "Show the list of all commands"@,
        EntryKind::HelpConsole => "Show the list of commands available on the console"@,
        EntryKind::HelpPipe => "Show the list of commands available through the pipe"@,
        EntryKind::DetachEveryone => "Detach everyone from the current session"@,
        EntryKind::DetachMe => "Detach me from the current session"@,
        EntryKind::DetachOthers => "Detach other clients from the current session"@,
        EntryKind::Edit => "Edit a file in a new edit pane"@,
        EntryKind::NewPane => "Open a new pane in the current tab"@,
        EntryKind::Run => "Run a command in a new pane"@,
    }
}

/// The model of the entry for one action kind.
pub open spec fn spec_entry(k: EntryKind) -> EntryModel {
    EntryModel {
        kind: k,
        aliases: spec_aliases(k),
        description: spec_description(k),
        interface: spec_entry_interface(k),
    }
}

/// The fixed order of the grammar table: help listings first, then the
/// remaining commands alphabetically.
pub open spec fn spec_kind_order() -> Seq<EntryKind> {
    seq![
        EntryKind::HelpAll,
        EntryKind::HelpConsole,
        EntryKind::HelpPipe,
        EntryKind::DetachEveryone,
        EntryKind::DetachMe,
        EntryKind::DetachOthers,
        EntryKind::Edit,
        EntryKind::NewPane,
        EntryKind::Run,
    ]
}

/// The whole grammar table, in its fixed order.
pub open spec fn spec_table() -> Seq<EntryModel> {
    spec_kind_order().map_values(|k: EntryKind| spec_entry(k))
}

/// Whether an entry tagged `tag` is listed under the help subset `scope`.
pub open spec fn spec_scope_allows(scope: HelpScope, tag: Interface) -> bool {
    match scope {
        HelpScope::AllCommands => true,
        HelpScope::ConsoleCommands => tag is All || tag is Console,
        HelpScope::PipeCommands => tag is All || tag is Pipe,
    }
}

/// Runtime counterpart of [`spec_scope_allows`].
pub fn scope_allows(scope: HelpScope, tag: Interface) -> (r: bool)
    ensures
        r == spec_scope_allows(scope, tag),
{
    match scope {
        HelpScope::AllCommands => true,
        HelpScope::ConsoleCommands => matches!(tag, Interface::All | Interface::Console),
        HelpScope::PipeCommands => matches!(tag, Interface::All | Interface::Pipe),
    }
}

/// The entries of `entries` visible under `scope`, keeping table order.
pub open spec fn spec_filter_visible(scope: HelpScope, entries: Seq<EntryModel>) -> Seq<
    EntryModel,
>
    decreases entries.len(),
{
    if entries.len() == 0 {
        Seq::empty()
    } else {
        let rest = spec_filter_visible(scope, entries.drop_last());
        if spec_scope_allows(scope, entries.last().interface) {
            rest.push(entries.last())
        } else {
            rest
        }
    }
}

/// The rows of the grammar table a help listing under `scope` shows.
pub open spec fn spec_visible(scope: HelpScope) -> Seq<EntryModel> {
    spec_filter_visible(scope, spec_table())
}

/// How many rows a help listing under `scope` shows; the bound of its
/// selection cursor.
pub open spec fn spec_count(scope: HelpScope) -> nat {
    spec_visible(scope).len()
}

/// Every help subset shows at least one row, and no more than the whole
/// table: a help action is never entered with an empty listing.
pub proof fn lemma_count_bounds(scope: HelpScope)
    ensures
        1 <= spec_count(scope) <= spec_table().len(),
{
    reveal_with_fuel(spec_filter_visible, 11);
    assert(spec_table().len() == 9);
    assert(spec_table()[8].interface == Interface::Console);
    match scope {
        HelpScope::AllCommands => {
            assert(spec_count(scope) == 9);
        }
        HelpScope::ConsoleCommands => {
            assert(spec_count(scope) == 9);
        }
        HelpScope::PipeCommands => {
            assert(spec_count(scope) == 4);
        }
    }
}

/// Every grammar entry declares at least one alias (its canonical name):
/// an entry with an empty alias list cannot exist.
pub proof fn lemma_table_aliases_nonempty()
    ensures
        forall|k: int|
            0 <= k < spec_table().len() ==> (#[trigger] spec_table()[k]).aliases.len() >= 1,
{
    assert forall|kind: EntryKind| spec_aliases(kind).len() >= 1 by {
        match kind {
            EntryKind::HelpAll => assert(spec_aliases(kind).len() == 6),
            EntryKind::HelpConsole => assert(spec_aliases(kind).len() == 3),
            EntryKind::HelpPipe => assert(spec_aliases(kind).len() == 3),
            EntryKind::DetachEveryone => assert(spec_aliases(kind).len() == 3),
            EntryKind::DetachMe => assert(spec_aliases(kind).len() == 3),
            EntryKind::DetachOthers => assert(spec_aliases(kind).len() == 3),
            EntryKind::Edit => assert(spec_aliases(kind).len() == 1),
            EntryKind::NewPane => assert(spec_aliases(kind).len() == 4),
            EntryKind::Run => assert(spec_aliases(kind).len() == 1),
        }
    }
}

/// Every row of a help listing comes from the grammar table.
proof fn lemma_filter_visible_sub(scope: HelpScope, entries: Seq<EntryModel>)
    ensures
        forall|i: int|
            0 <= i < spec_filter_visible(scope, entries).len() ==> entries.contains(
                #[trigger] spec_filter_visible(scope, entries)[i],
            ),
    decreases entries.len(),
{
    if entries.len() > 0 {
        let front = entries.drop_last();
        lemma_filter_visible_sub(scope, front);
        assert forall|i: int|
            0 <= i < spec_filter_visible(scope, entries).len() implies entries.contains(
            spec_filter_visible(scope, entries)[i],
        ) by {
            let filtered = spec_filter_visible(scope, entries);
            let kept = spec_filter_visible(scope, front);
            if i < kept.len() {
                assert(front.contains(kept[i]));
                let j = choose|j: int| 0 <= j < front.len() && front[j] == kept[i];
                assert(entries[j] == kept[i]);
            } else {
                assert(filtered[i] == entries.last());
                assert(entries[entries.len() - 1] == entries.last());
            }
        }
    }
}

/// Every visible row of a help listing has at least one alias, so a
/// selected row always has a canonical name to substitute.
pub proof fn lemma_visible_aliases_nonempty(scope: HelpScope)
    ensures
        forall|i: int|
            0 <= i < spec_visible(scope).len() ==> (#[trigger] spec_visible(scope)[i]).aliases.len()
                >= 1,
{
    lemma_filter_visible_sub(scope, spec_table());
    lemma_table_aliases_nonempty();
    assert forall|i: int|
        0 <= i < spec_visible(scope).len() implies (#[trigger] spec_visible(scope)[i]).aliases.len()
        >= 1 by {
        assert(spec_table().contains(spec_visible(scope)[i]));
        let k = choose|k: int| 0 <= k < spec_table().len() && spec_table()[k] == spec_visible(
            scope,
        )[i];
        assert(spec_table()[k].aliases.len() >= 1);
    }
}

fn make_aliases(names: Vec<&str>) -> (r: Vec<String>)
    ensures
        r.deep_view() =~~= names.deep_view(),
{
    let mut out: Vec<String> = Vec::new();
    let mut i: usize = 0;
    while i < names.len()
        invariant
            i <= names.len(),
            out.deep_view() =~~= names.deep_view().take(i as int),
        decreases names.len() - i,
    {
        let ghost prev: Seq<Seq<char>> = out.deep_view();
        out.push(String::from_str(names[i]));
        proof {
            assert(out.deep_view() =~~= prev.push(names@[i as int]@));
            assert(names.deep_view().take(i as int + 1) =~= names.deep_view().take(
                i as int,
            ).push(names.deep_view()[i as int]));
        }
        i = i + 1;
    }
    proof {
        assert(names.deep_view().take(names@.len() as int) =~= names.deep_view());
    }
    out
}

fn make_entry(kind: EntryKind, names: Vec<&str>, description: &str) -> (r: GrammarEntry)
    requires
        names.deep_view() == spec_aliases(kind),
        description@ == spec_description(kind),
    ensures
        r@ == spec_entry(kind),
{
    let aliases = make_aliases(names);
    let r = GrammarEntry {
        kind,
        aliases,
        description: String::from_str(description),
        interface: entry_interface(kind),
    };
    proof {
        assert(r@ =~~= spec_entry(kind));
    }
    r
}

/// Builds the grammar table. Constructed once at startup by the embedding
/// host and treated as immutable; every row is proved to model
/// [`spec_table`], so an entry with an empty alias list cannot be
/// constructed.
pub fn grammar_table() -> (r: Vec<GrammarEntry>)
    ensures
        r@.len() == spec_table().len(),
        forall|i: int| 0 <= i < r@.len() ==> #[trigger] r@[i]@ == spec_table()[i],
{
    let mut t: Vec<GrammarEntry> = Vec::new();
    t.push(make_entry(
        EntryKind::HelpAll,
        alias_names_help_all(),
        "Show the list of all commands",
    ));
    t.push(make_entry(
        EntryKind::HelpConsole,
        alias_names_help_console(),
        "Show the list of commands available on the console",
    ));
    t.push(make_entry(
        EntryKind::HelpPipe,
        alias_names_help_pipe(),
        "Show the list of commands available through the pipe",
    ));
    t.push(make_entry(
        EntryKind::DetachEveryone,
        alias_names_detach_everyone(),
        "Detach everyone from the current session",
    ));
    t.push(make_entry(
        EntryKind::DetachMe,
        alias_names_detach_me(),
        "Detach me from the current session",
    ));
    t.push(make_entry(
        EntryKind::DetachOthers,
        alias_names_detach_others(),
        "Detach other clients from the current session",
    ));
    t.push(make_entry(EntryKind::Edit, alias_names_edit(), "Edit a file in a new edit pane"));
    t.push(make_entry(
        EntryKind::NewPane,
        alias_names_new_pane(),
        "Open a new pane in the current tab",
    ));
    t.push(make_entry(EntryKind::Run, alias_names_run(), "Run a command in a new pane"));
    proof {
        assert(spec_table().len() == 9);
        assert(forall|i: int| 0 <= i < t@.len() ==> #[trigger] t@[i]@ == spec_table()[i]);
    }
    t
}

fn alias_names_help_all() -> (r: Vec<&'static str>)
    ensures
        r.deep_view() == spec_aliases(EntryKind::HelpAll),
{
    let r = vec!["Help", "HelpAll", "Help-All", "Help_All", "h", "?"];
    proof {
        assert(r.deep_view() =~~= spec_aliases(EntryKind::HelpAll));
    }
    r
}

fn alias_names_help_console() -> (r: Vec<&'static str>)
    ensures
        r.deep_view() == spec_aliases(EntryKind::HelpConsole),
{
    let r = vec!["HelpPane", "Help-Pane", "Help_Pane"];
    proof {
        assert(r.deep_view() =~~= spec_aliases(EntryKind::HelpConsole));
    }
    r
}

fn alias_names_help_pipe() -> (r: Vec<&'static str>)
    ensures
        r.deep_view() == spec_aliases(EntryKind::HelpPipe),
{
    let r = vec!["HelpPipe", "Help-Pipe", "Help_Pipe"];
    proof {
        assert(r.deep_view() =~~= spec_aliases(EntryKind::HelpPipe));
    }
    r
}

fn alias_names_detach_everyone() -> (r: Vec<&'static str>)
    ensures
        r.deep_view() == spec_aliases(EntryKind::DetachEveryone),
{
    let r = vec!["DetachEveryone", "Detach-Everyone", "Detach_Everyone"];
    proof {
        assert(r.deep_view() =~~= spec_aliases(EntryKind::DetachEveryone));
    }
    r
}

fn alias_names_detach_me() -> (r: Vec<&'static str>)
    ensures
        r.deep_view() == spec_aliases(EntryKind::DetachMe),
{
    let r = vec!["DetachMe", "Detach-Me", "Detach_Me"];
    proof {
        assert(r.deep_view() =~~= spec_aliases(EntryKind::DetachMe));
    }
    r
}

fn alias_names_detach_others() -> (r: Vec<&'static str>)
    ensures
        r.deep_view() == spec_aliases(EntryKind::DetachOthers),
{
    let r = vec!["DetachOthers", "Detach-Others", "Detach_Others"];
    proof {
        assert(r.deep_view() =~~= spec_aliases(EntryKind::DetachOthers));
    }
    r
}

fn alias_names_edit() -> (r: Vec<&'static str>)
    ensures
        r.deep_view() == spec_aliases(EntryKind::Edit),
{
    let r = vec!["Edit"];
    proof {
        assert(r.deep_view() =~~= spec_aliases(EntryKind::Edit));
    }
    r
}

fn alias_names_new_pane() -> (r: Vec<&'static str>)
    ensures
        r.deep_view() == spec_aliases(EntryKind::NewPane),
{
    let r = vec!["NewPane", "New-Pane", "New_Pane", "np"];
    proof {
        assert(r.deep_view() =~~= spec_aliases(EntryKind::NewPane));
    }
    r
}

fn alias_names_run() -> (r: Vec<&'static str>)
    ensures
        r.deep_view() == spec_aliases(EntryKind::Run),
{
    let r = vec!["Run"];
    proof {
        assert(r.deep_view() =~~= spec_aliases(EntryKind::Run));
    }
    r
}

/// A copy of a grammar entry whose model is the same.
fn clone_entry(e: &GrammarEntry) -> (r: GrammarEntry)
    ensures
        r@ == e@,
{
    let aliases = e.aliases.clone();
    proof {
        assert(forall|i: int|
            0 <= i < e.aliases@.len() ==> aliases@[i] == #[trigger] e.aliases@[i]);
        assert(aliases.deep_view() =~= e.aliases.deep_view());
    }
    let r = GrammarEntry {
        kind: e.kind,
        aliases,
        description: e.description.clone(),
        interface: e.interface,
    };
    proof {
        assert(r@ =~~= e@);
    }
    r
}

/// The rows of the grammar table visible under `scope`, in table order:
/// what a help listing shows, and what a selection cursor indexes.
pub fn visible_entries(scope: HelpScope) -> (r: Vec<GrammarEntry>)
    ensures
        r@.len() == spec_visible(scope).len(),
        forall|i: int| 0 <= i < r@.len() ==> #[trigger] r@[i]@ == spec_visible(scope)[i],
{
    let t = grammar_table();
    let mut out: Vec<GrammarEntry> = Vec::new();
    let mut i: usize = 0;
    proof {
        assert(spec_table().take(0) =~= Seq::<EntryModel>::empty());
    }
    while i < t.len()
        invariant
            i <= t.len(),
            t@.len() == spec_table().len(),
            forall|j: int| 0 <= j < t@.len() ==> #[trigger] t@[j]@ == spec_table()[j],
            out@.len() == spec_filter_visible(scope, spec_table().take(i as int)).len(),
            forall|j: int|
                0 <= j < out@.len() ==> #[trigger] out@[j]@ == spec_filter_visible(
                    scope,
                    spec_table().take(i as int),
                )[j],
        decreases t.len() - i,
    {
        let ghost pre: Seq<EntryModel> = spec_table().take(i as int);
        let ghost post: Seq<EntryModel> = spec_table().take(i as int + 1);
        proof {
            assert(post.drop_last() =~= pre);
            assert(post.last() == spec_table()[i as int]);
            assert(t@[i as int]@ == spec_table()[i as int]);
        }
        let e = &t[i];
        if scope_allows(scope, e.interface) {
            out.push(clone_entry(e));
            proof {
                assert(spec_filter_visible(scope, post) == spec_filter_visible(scope, pre).push(
                    spec_table()[i as int],
                ));
            }
        } else {
            proof {
                assert(spec_filter_visible(scope, post) == spec_filter_visible(scope, pre));
            }
        }
        i = i + 1;
    }
    proof {
        assert(spec_table().take(t@.len() as int) =~= spec_table());
    }
    out
}

/// How many rows the help listing under `scope` shows.
pub fn count_visible(scope: HelpScope) -> (r: usize)
    ensures
        r == spec_count(scope),
{
    let v = visible_entries(scope);
    v.len()
}

} // verus!
