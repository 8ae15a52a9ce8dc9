//! The laws the library states of itself, each proved over the same spec
//! functions the executable contracts use.

use vstd::prelude::*;
use crate::interface::Interface;
use crate::grammar::spec_table;
use crate::action::{ActionModel, ResolvedModel, spec_action_tag};
use crate::selection::Selection;
use crate::classify::{
    spec_classify,
    spec_resolve,
    spec_restrict,
    spec_action_for,
    spec_lookup,
    spec_lookup_from,
    spec_entry_matches,
};
use crate::text::{spec_lower, spec_is_space};
use crate::tokenize::{spec_tokens, spec_head, lemma_single_token};

verus! {

/// Idempotence: classification and filtering are pure functions of the
/// text and the calling interface, so classifying the same input twice
/// yields identical results.
pub proof fn lemma_classify_idempotent(
    text: Seq<char>,
    calling: Interface,
    first: ResolvedModel,
    second: ResolvedModel,
)
    requires
        first == spec_resolve(text, calling),
        second == spec_resolve(text, calling),
    ensures
        first == second,
{
}

/// Interface symmetry: a console-only action submitted through the pipe is
/// always wrapped as unavailable, rejected by the pipe, with its payload
/// kept; submitted with no restriction context it always passes through
/// unchanged.
pub proof fn lemma_interface_symmetry(a: ActionModel)
    requires
        !(a is Unrecognized),
        spec_action_tag(a) == Interface::Console,
    ensures
        (spec_restrict(a, Interface::Pipe) == ResolvedModel {
            kind: a,
            rejected_by: Some(Interface::Pipe),
        }),
        (spec_restrict(a, Interface::All) == ResolvedModel { kind: a, rejected_by: None }),
{
}

/// The capability filter never alters the action it judges: filtering runs
/// after classification, and a rejected action keeps its parsed payload so
/// it can still be displayed or force-run later.
pub proof fn lemma_filter_keeps_payload(a: ActionModel, calling: Interface)
    ensures
        spec_restrict(a, calling).kind == a,
{
}

/// Selection wrap: from the first row, retreating lands on the last row;
/// from the last row, advancing lands back on the first.
pub proof fn lemma_selection_wrap(bound: usize)
    requires
        bound >= 1,
    ensures
        ((Selection::Cursor { row: 0, bound }).spec_retreat() == Selection::Cursor {
            row: (bound - 1) as usize,
            bound,
        }),
        ((Selection::Cursor { row: (bound - 1) as usize, bound }).spec_advance()
            == Selection::Cursor { row: 0, bound }),
{
}

// ---------------------------------------------------------------------
// Alias coverage
// ---------------------------------------------------------------------
/// The case folding of every declared alias, given pointwise (length and
/// each character) so that any two distinct folded aliases can be told
/// apart; computed once and shared by the per-entry lemmas below.
proof fn lemma_alias_foldings()
    ensures
        spec_lower("Help"@).len() == 4,
        spec_lower("Help"@)[0] == 'h',
        spec_lower("Help"@)[1] == 'e',
        spec_lower("Help"@)[2] == 'l',
        spec_lower("Help"@)[3] == 'p',
        spec_lower("HelpAll"@).len() == 7,
        spec_lower("HelpAll"@)[0] == 'h',
        spec_lower("HelpAll"@)[1] == 'e',
        spec_lower("HelpAll"@)[2] == 'l',
        spec_lower("HelpAll"@)[3] == 'p',
        spec_lower("HelpAll"@)[4] == 'a',
        spec_lower("HelpAll"@)[5] == 'l',
        spec_lower("HelpAll"@)[6] == 'l',
        spec_lower("Help-All"@).len() == 8,
        spec_lower("Help-All"@)[0] == 'h',
        spec_lower("Help-All"@)[1] == 'e',
        spec_lower("Help-All"@)[2] == 'l',
        spec_lower("Help-All"@)[3] == 'p',
        spec_lower("Help-All"@)[4] == '-',
        spec_lower("Help-All"@)[5] == 'a',
        spec_lower("Help-All"@)[6] == 'l',
        spec_lower("Help-All"@)[7] == 'l',
        spec_lower("Help_All"@).len() == 8,
        spec_lower("Help_All"@)[0] == 'h',
        spec_lower("Help_All"@)[1] == 'e',
        spec_lower("Help_All"@)[2] == 'l',
        spec_lower("Help_All"@)[3] == 'p',
        spec_lower("Help_All"@)[4] == '_',
        spec_lower("Help_All"@)[5] == 'a',
        spec_lower("Help_All"@)[6] == 'l',
        spec_lower("Help_All"@)[7] == 'l',
        spec_lower("h"@).len() == 1,
        spec_lower("h"@)[0] == 'h',
        spec_lower("?"@).len() == 1,
        spec_lower("?"@)[0] == '?',
        spec_lower("HelpPane"@).len() == 8,
        spec_lower("HelpPane"@)[0] == 'h',
        spec_lower("HelpPane"@)[1] == 'e',
        spec_lower("HelpPane"@)[2] == 'l',
        spec_lower("HelpPane"@)[3] == 'p',
        spec_lower("HelpPane"@)[4] == 'p',
        spec_lower("HelpPane"@)[5] == 'a',
        spec_lower("HelpPane"@)[6] == 'n',
        spec_lower("HelpPane"@)[7] == 'e',
        spec_lower("Help-Pane"@).len() == 9,
        spec_lower("Help-Pane"@)[0] == 'h',
        spec_lower("Help-Pane"@)[1] == 'e',
        spec_lower("Help-Pane"@)[2] == 'l',
        spec_lower("Help-Pane"@)[3] == 'p',
        spec_lower("Help-Pane"@)[4] == '-',
        spec_lower("Help-Pane"@)[5] == 'p',
        spec_lower("Help-Pane"@)[6] == 'a',
        spec_lower("Help-Pane"@)[7] == 'n',
        spec_lower("Help-Pane"@)[8] == 'e',
        spec_lower("Help_Pane"@).len() == 9,
        spec_lower("Help_Pane"@)[0] == 'h',
        spec_lower("Help_Pane"@)[1] == 'e',
        spec_lower("Help_Pane"@)[2] == 'l',
        spec_lower("Help_Pane"@)[3] == 'p',
        spec_lower("Help_Pane"@)[4] == '_',
        spec_lower("Help_Pane"@)[5] == 'p',
        spec_lower("Help_Pane"@)[6] == 'a',
        spec_lower("Help_Pane"@)[7] == 'n',
        spec_lower("Help_Pane"@)[8] == 'e',
        spec_lower("HelpPipe"@).len() == 8,
        spec_lower("HelpPipe"@)[0] == 'h',
        spec_lower("HelpPipe"@)[1] == 'e',
        spec_lower("HelpPipe"@)[2] == 'l',
        spec_lower("HelpPipe"@)[3] == 'p',
        spec_lower("HelpPipe"@)[4] == 'p',
        spec_lower("HelpPipe"@)[5] == 'i',
        spec_lower("HelpPipe"@)[6] == 'p',
        spec_lower("HelpPipe"@)[7] == 'e',
        spec_lower("Help-Pipe"@).len() == 9,
        spec_lower("Help-Pipe"@)[0] == 'h',
        spec_lower("Help-Pipe"@)[1] == 'e',
        spec_lower("Help-Pipe"@)[2] == 'l',
        spec_lower("Help-Pipe"@)[3] == 'p',
        spec_lower("Help-Pipe"@)[4] == '-',
        spec_lower("Help-Pipe"@)[5] == 'p',
        spec_lower("Help-Pipe"@)[6] == 'i',
        spec_lower("Help-Pipe"@)[7] == 'p',
        spec_lower("Help-Pipe"@)[8] == 'e',
        spec_lower("Help_Pipe"@).len() == 9,
        spec_lower("Help_Pipe"@)[0] == 'h',
        spec_lower("Help_Pipe"@)[1] == 'e',
        spec_lower("Help_Pipe"@)[2] == 'l',
        spec_lower("Help_Pipe"@)[3] == 'p',
        spec_lower("Help_Pipe"@)[4] == '_',
        spec_lower("Help_Pipe"@)[5] == 'p',
        spec_lower("Help_Pipe"@)[6] == 'i',
        spec_lower("Help_Pipe"@)[7] == 'p',
        spec_lower("Help_Pipe"@)[8] == 'e',
        spec_lower("DetachEveryone"@).len() == 14,
        spec_lower("DetachEveryone"@)[0] == 'd',
        spec_lower("DetachEveryone"@)[1] == 'e',
        spec_lower("DetachEveryone"@)[2] == 't',
        spec_lower("DetachEveryone"@)[3] == 'a',
        spec_lower("DetachEveryone"@)[4] == 'c',
        spec_lower("DetachEveryone"@)[5] == 'h',
        spec_lower("DetachEveryone"@)[6] == 'e',
        spec_lower("DetachEveryone"@)[7] == 'v',
        spec_lower("DetachEveryone"@)[8] == 'e',
        spec_lower("DetachEveryone"@)[9] == 'r',
        spec_lower("DetachEveryone"@)[10] == 'y',
        spec_lower("DetachEveryone"@)[11] == 'o',
        spec_lower("DetachEveryone"@)[12] == 'n',
        spec_lower("DetachEveryone"@)[13] == 'e',
        spec_lower("Detach-Everyone"@).len() == 15,
        spec_lower("Detach-Everyone"@)[0] == 'd',
        spec_lower("Detach-Everyone"@)[1] == 'e',
        spec_lower("Detach-Everyone"@)[2] == 't',
        spec_lower("Detach-Everyone"@)[3] == 'a',
        spec_lower("Detach-Everyone"@)[4] == 'c',
        spec_lower("Detach-Everyone"@)[5] == 'h',
        spec_lower("Detach-Everyone"@)[6] == '-',
        spec_lower("Detach-Everyone"@)[7] == 'e',
        spec_lower("Detach-Everyone"@)[8] == 'v',
        spec_lower("Detach-Everyone"@)[9] == 'e',
        spec_lower("Detach-Everyone"@)[10] == 'r',
        spec_lower("Detach-Everyone"@)[11] == 'y',
        spec_lower("Detach-Everyone"@)[12] == 'o',
        spec_lower("Detach-Everyone"@)[13] == 'n',
        spec_lower("Detach-Everyone"@)[14] == 'e',
        spec_lower("Detach_Everyone"@).len() == 15,
        spec_lower("Detach_Everyone"@)[0] == 'd',
        spec_lower("Detach_Everyone"@)[1] == 'e',
        spec_lower("Detach_Everyone"@)[2] == 't',
        spec_lower("Detach_Everyone"@)[3] == 'a',
        spec_lower("Detach_Everyone"@)[4] == 'c',
        spec_lower("Detach_Everyone"@)[5] == 'h',
        spec_lower("Detach_Everyone"@)[6] == '_',
        spec_lower("Detach_Everyone"@)[7] == 'e',
        spec_lower("Detach_Everyone"@)[8] == 'v',
        spec_lower("Detach_Everyone"@)[9] == 'e',
        spec_lower("Detach_Everyone"@)[10] == 'r',
        spec_lower("Detach_Everyone"@)[11] == 'y',
        spec_lower("Detach_Everyone"@)[12] == 'o',
        spec_lower("Detach_Everyone"@)[13] == 'n',
        spec_lower("Detach_Everyone"@)[14] == 'e',
        spec_lower("DetachMe"@).len() == 8,
        spec_lower("DetachMe"@)[0] == 'd',
        spec_lower("DetachMe"@)[1] == 'e',
        spec_lower("DetachMe"@)[2] == 't',
        spec_lower("DetachMe"@)[3] == 'a',
        spec_lower("DetachMe"@)[4] == 'c',
        spec_lower("DetachMe"@)[5] == 'h',
        spec_lower("DetachMe"@)[6] == 'm',
        spec_lower("DetachMe"@)[7] == 'e',
        spec_lower("Detach-Me"@).len() == 9,
        spec_lower("Detach-Me"@)[0] == 'd',
        spec_lower("Detach-Me"@)[1] == 'e',
        spec_lower("Detach-Me"@)[2] == 't',
        spec_lower("Detach-Me"@)[3] == 'a',
        spec_lower("Detach-Me"@)[4] == 'c',
        spec_lower("Detach-Me"@)[5] == 'h',
        spec_lower("Detach-Me"@)[6] == '-',
        spec_lower("Detach-Me"@)[7] == 'm',
        spec_lower("Detach-Me"@)[8] == 'e',
        spec_lower("Detach_Me"@).len() == 9,
        spec_lower("Detach_Me"@)[0] == 'd',
        spec_lower("Detach_Me"@)[1] == 'e',
        spec_lower("Detach_Me"@)[2] == 't',
        spec_lower("Detach_Me"@)[3] == 'a',
        spec_lower("Detach_Me"@)[4] == 'c',
        spec_lower("Detach_Me"@)[5] == 'h',
        spec_lower("Detach_Me"@)[6] == '_',
        spec_lower("Detach_Me"@)[7] == 'm',
        spec_lower("Detach_Me"@)[8] == 'e',
        spec_lower("DetachOthers"@).len() == 12,
        spec_lower("DetachOthers"@)[0] == 'd',
        spec_lower("DetachOthers"@)[1] == 'e',
        spec_lower("DetachOthers"@)[2] == 't',
        spec_lower("DetachOthers"@)[3] == 'a',
        spec_lower("DetachOthers"@)[4] == 'c',
        spec_lower("DetachOthers"@)[5] == 'h',
        spec_lower("DetachOthers"@)[6] == 'o',
        spec_lower("DetachOthers"@)[7] == 't',
        spec_lower("DetachOthers"@)[8] == 'h',
        spec_lower("DetachOthers"@)[9] == 'e',
        spec_lower("DetachOthers"@)[10] == 'r',
        spec_lower("DetachOthers"@)[11] == 's',
        spec_lower("Detach-Others"@).len() == 13,
        spec_lower("Detach-Others"@)[0] == 'd',
        spec_lower("Detach-Others"@)[1] == 'e',
        spec_lower("Detach-Others"@)[2] == 't',
        spec_lower("Detach-Others"@)[3] == 'a',
        spec_lower("Detach-Others"@)[4] == 'c',
        spec_lower("Detach-Others"@)[5] == 'h',
        spec_lower("Detach-Others"@)[6] == '-',
        spec_lower("Detach-Others"@)[7] == 'o',
        spec_lower("Detach-Others"@)[8] == 't',
        spec_lower("Detach-Others"@)[9] == 'h',
        spec_lower("Detach-Others"@)[10] == 'e',
        spec_lower("Detach-Others"@)[11] == 'r',
        spec_lower("Detach-Others"@)[12] == 's',
        spec_lower("Detach_Others"@).len() == 13,
        spec_lower("Detach_Others"@)[0] == 'd',
        spec_lower("Detach_Others"@)[1] == 'e',
        spec_lower("Detach_Others"@)[2] == 't',
        spec_lower("Detach_Others"@)[3] == 'a',
        spec_lower("Detach_Others"@)[4] == 'c',
        spec_lower("Detach_Others"@)[5] == 'h',
        spec_lower("Detach_Others"@)[6] == '_',
        spec_lower("Detach_Others"@)[7] == 'o',
        spec_lower("Detach_Others"@)[8] == 't',
        spec_lower("Detach_Others"@)[9] == 'h',
        spec_lower("Detach_Others"@)[10] == 'e',
        spec_lower("Detach_Others"@)[11] == 'r',
        spec_lower("Detach_Others"@)[12] == 's',
        spec_lower("Edit"@).len() == 4,
        spec_lower("Edit"@)[0] == 'e',
        spec_lower("Edit"@)[1] == 'd',
        spec_lower("Edit"@)[2] == 'i',
        spec_lower("Edit"@)[3] == 't',
        spec_lower("NewPane"@).len() == 7,
        spec_lower("NewPane"@)[0] == 'n',
        spec_lower("NewPane"@)[1] == 'e',
        spec_lower("NewPane"@)[2] == 'w',
        spec_lower("NewPane"@)[3] == 'p',
        spec_lower("NewPane"@)[4] == 'a',
        spec_lower("NewPane"@)[5] == 'n',
        spec_lower("NewPane"@)[6] == 'e',
        spec_lower("New-Pane"@).len() == 8,
        spec_lower("New-Pane"@)[0] == 'n',
        spec_lower("New-Pane"@)[1] == 'e',
        spec_lower("New-Pane"@)[2] == 'w',
        spec_lower("New-Pane"@)[3] == '-',
        spec_lower("New-Pane"@)[4] == 'p',
        spec_lower("New-Pane"@)[5] == 'a',
        spec_lower("New-Pane"@)[6] == 'n',
        spec_lower("New-Pane"@)[7] == 'e',
        spec_lower("New_Pane"@).len() == 8,
        spec_lower("New_Pane"@)[0] == 'n',
        spec_lower("New_Pane"@)[1] == 'e',
        spec_lower("New_Pane"@)[2] == 'w',
        spec_lower("New_Pane"@)[3] == '_',
        spec_lower("New_Pane"@)[4] == 'p',
        spec_lower("New_Pane"@)[5] == 'a',
        spec_lower("New_Pane"@)[6] == 'n',
        spec_lower("New_Pane"@)[7] == 'e',
        spec_lower("np"@).len() == 2,
        spec_lower("np"@)[0] == 'n',
        spec_lower("np"@)[1] == 'p',
        spec_lower("Run"@).len() == 3,
        spec_lower("Run"@)[0] == 'r',
        spec_lower("Run"@)[1] == 'u',
        spec_lower("Run"@)[2] == 'n',
{
    reveal_strlit("Help");
    reveal_strlit("HelpAll");
    reveal_strlit("Help-All");
    reveal_strlit("Help_All");
    reveal_strlit("h");
    reveal_strlit("?");
    reveal_strlit("HelpPane");
    reveal_strlit("Help-Pane");
    reveal_strlit("Help_Pane");
    reveal_strlit("HelpPipe");
    reveal_strlit("Help-Pipe");
    reveal_strlit("Help_Pipe");
    reveal_strlit("DetachEveryone");
    reveal_strlit("Detach-Everyone");
    reveal_strlit("Detach_Everyone");
    reveal_strlit("DetachMe");
    reveal_strlit("Detach-Me");
    reveal_strlit("Detach_Me");
    reveal_strlit("DetachOthers");
    reveal_strlit("Detach-Others");
    reveal_strlit("Detach_Others");
    reveal_strlit("Edit");
    reveal_strlit("NewPane");
    reveal_strlit("New-Pane");
    reveal_strlit("New_Pane");
    reveal_strlit("np");
    reveal_strlit("Run");
    assert(spec_lower("Help"@) =~= seq!['h', 'e', 'l', 'p']);
    assert(spec_lower("HelpAll"@) =~= seq!['h', 'e', 'l', 'p', 'a', 'l', 'l']);
    assert(spec_lower("Help-All"@) =~= seq!['h', 'e', 'l', 'p', '-', 'a', 'l', 'l']);
    assert(spec_lower("Help_All"@) =~= seq!['h', 'e', 'l', 'p', '_', 'a', 'l', 'l']);
    assert(spec_lower("h"@) =~= seq!['h']);
    assert(spec_lower("?"@) =~= seq!['?']);
    assert(spec_lower("HelpPane"@) =~= seq!['h', 'e', 'l', 'p', 'p', 'a', 'n', 'e']);
    assert(spec_lower("Help-Pane"@) =~= seq!['h', 'e', 'l', 'p', '-', 'p', 'a', 'n', 'e']);
    assert(spec_lower("Help_Pane"@) =~= seq!['h', 'e', 'l', 'p', '_', 'p', 'a', 'n', 'e']);
    assert(spec_lower("HelpPipe"@) =~= seq!['h', 'e', 'l', 'p', 'p', 'i', 'p', 'e']);
    assert(spec_lower("Help-Pipe"@) =~= seq!['h', 'e', 'l', 'p', '-', 'p', 'i', 'p', 'e']);
    assert(spec_lower("Help_Pipe"@) =~= seq!['h', 'e', 'l', 'p', '_', 'p', 'i', 'p', 'e']);
    assert(spec_lower("DetachEveryone"@) =~= seq!['d', 'e', 't', 'a', 'c', 'h', 'e', 'v', 'e', 'r', 'y', 'o', 'n', 'e']);
    assert(spec_lower("Detach-Everyone"@) =~= seq!['d', 'e', 't', 'a', 'c', 'h', '-', 'e', 'v', 'e', 'r', 'y', 'o', 'n', 'e']);
    assert(spec_lower("Detach_Everyone"@) =~= seq!['d', 'e', 't', 'a', 'c', 'h', '_', 'e', 'v', 'e', 'r', 'y', 'o', 'n', 'e']);
    assert(spec_lower("DetachMe"@) =~= seq!['d', 'e', 't', 'a', 'c', 'h', 'm', 'e']);
    assert(spec_lower("Detach-Me"@) =~= seq!['d', 'e', 't', 'a', 'c', 'h', '-', 'm', 'e']);
    assert(spec_lower("Detach_Me"@) =~= seq!['d', 'e', 't', 'a', 'c', 'h', '_', 'm', 'e']);
    assert(spec_lower("DetachOthers"@) =~= seq!['d', 'e', 't', 'a', 'c', 'h', 'o', 't', 'h', 'e', 'r', 's']);
    assert(spec_lower("Detach-Others"@) =~= seq!['d', 'e', 't', 'a', 'c', 'h', '-', 'o', 't', 'h', 'e', 'r', 's']);
    assert(spec_lower("Detach_Others"@) =~= seq!['d', 'e', 't', 'a', 'c', 'h', '_', 'o', 't', 'h', 'e', 'r', 's']);
    assert(spec_lower("Edit"@) =~= seq!['e', 'd', 'i', 't']);
    assert(spec_lower("NewPane"@) =~= seq!['n', 'e', 'w', 'p', 'a', 'n', 'e']);
    assert(spec_lower("New-Pane"@) =~= seq!['n', 'e', 'w', '-', 'p', 'a', 'n', 'e']);
    assert(spec_lower("New_Pane"@) =~= seq!['n', 'e', 'w', '_', 'p', 'a', 'n', 'e']);
    assert(spec_lower("np"@) =~= seq!['n', 'p']);
    assert(spec_lower("Run"@) =~= seq!['r', 'u', 'n']);
}

/// A head token that differs from each case-folded alias of this entry
/// matches none of them.
proof fn no_match_entry0(head: Seq<char>)
    requires
        head != spec_lower("Help"@),
        head != spec_lower("HelpAll"@),
        head != spec_lower("Help-All"@),
        head != spec_lower("Help_All"@),
        head != spec_lower("h"@),
        head != spec_lower("?"@),
    ensures
        !spec_entry_matches(head, spec_table()[0].aliases),
{
    assert forall|j: int|
        0 <= j < spec_table()[0].aliases.len() implies spec_lower(
        #[trigger] spec_table()[0].aliases[j],
    ) != head by {
        if j == 0 {
        } else if j == 1 {
        } else if j == 2 {
        } else if j == 3 {
        } else if j == 4 {
        } else {
        }
    }
}

/// A head token that differs from each case-folded alias of this entry
/// matches none of them.
proof fn no_match_entry1(head: Seq<char>)
    requires
        head != spec_lower("HelpPane"@),
        head != spec_lower("Help-Pane"@),
        head != spec_lower("Help_Pane"@),
    ensures
        !spec_entry_matches(head, spec_table()[1].aliases),
{
    assert forall|j: int|
        0 <= j < spec_table()[1].aliases.len() implies spec_lower(
        #[trigger] spec_table()[1].aliases[j],
    ) != head by {
        if j == 0 {
        } else if j == 1 {
        } else {
        }
    }
}

/// A head token that differs from each case-folded alias of this entry
/// matches none of them.
proof fn no_match_entry2(head: Seq<char>)
    requires
        head != spec_lower("HelpPipe"@),
        head != spec_lower("Help-Pipe"@),
        head != spec_lower("Help_Pipe"@),
    ensures
        !spec_entry_matches(head, spec_table()[2].aliases),
{
    assert forall|j: int|
        0 <= j < spec_table()[2].aliases.len() implies spec_lower(
        #[trigger] spec_table()[2].aliases[j],
    ) != head by {
        if j == 0 {
        } else if j == 1 {
        } else {
        }
    }
}

/// A head token that differs from each case-folded alias of this entry
/// matches none of them.
proof fn no_match_entry3(head: Seq<char>)
    requires
        head != spec_lower("DetachEveryone"@),
        head != spec_lower("Detach-Everyone"@),
        head != spec_lower("Detach_Everyone"@),
    ensures
        !spec_entry_matches(head, spec_table()[3].aliases),
{
    assert forall|j: int|
        0 <= j < spec_table()[3].aliases.len() implies spec_lower(
        #[trigger] spec_table()[3].aliases[j],
    ) != head by {
        if j == 0 {
        } else if j == 1 {
        } else {
        }
    }
}

/// A head token that differs from each case-folded alias of this entry
/// matches none of them.
proof fn no_match_entry4(head: Seq<char>)
    requires
        head != spec_lower("DetachMe"@),
        head != spec_lower("Detach-Me"@),
        head != spec_lower("Detach_Me"@),
    ensures
        !spec_entry_matches(head, spec_table()[4].aliases),
{
    assert forall|j: int|
        0 <= j < spec_table()[4].aliases.len() implies spec_lower(
        #[trigger] spec_table()[4].aliases[j],
    ) != head by {
        if j == 0 {
        } else if j == 1 {
        } else {
        }
    }
}

/// A head token that differs from each case-folded alias of this entry
/// matches none of them.
proof fn no_match_entry5(head: Seq<char>)
    requires
        head != spec_lower("DetachOthers"@),
        head != spec_lower("Detach-Others"@),
        head != spec_lower("Detach_Others"@),
    ensures
        !spec_entry_matches(head, spec_table()[5].aliases),
{
    assert forall|j: int|
        0 <= j < spec_table()[5].aliases.len() implies spec_lower(
        #[trigger] spec_table()[5].aliases[j],
    ) != head by {
        if j == 0 {
        } else if j == 1 {
        } else {
        }
    }
}

/// A head token that differs from each case-folded alias of this entry
/// matches none of them.
proof fn no_match_entry6(head: Seq<char>)
    requires
        head != spec_lower("Edit"@),
    ensures
        !spec_entry_matches(head, spec_table()[6].aliases),
{
    assert forall|j: int|
        0 <= j < spec_table()[6].aliases.len() implies spec_lower(
        #[trigger] spec_table()[6].aliases[j],
    ) != head by {
        if j == 0 {
        }
    }
}

/// A head token that differs from each case-folded alias of this entry
/// matches none of them.
proof fn no_match_entry7(head: Seq<char>)
    requires
        head != spec_lower("NewPane"@),
        head != spec_lower("New-Pane"@),
        head != spec_lower("New_Pane"@),
        head != spec_lower("np"@),
    ensures
        !spec_entry_matches(head, spec_table()[7].aliases),
{
    assert forall|j: int|
        0 <= j < spec_table()[7].aliases.len() implies spec_lower(
        #[trigger] spec_table()[7].aliases[j],
    ) != head by {
        if j == 0 {
        } else if j == 1 {
        } else if j == 2 {
        } else {
        }
    }
}

/// A head token that differs from each case-folded alias of this entry
/// matches none of them.
proof fn no_match_entry8(head: Seq<char>)
    requires
        head != spec_lower("Run"@),
    ensures
        !spec_entry_matches(head, spec_table()[8].aliases),
{
    assert forall|j: int|
        0 <= j < spec_table()[8].aliases.len() implies spec_lower(
        #[trigger] spec_table()[8].aliases[j],
    ) != head by {
        if j == 0 {
        }
    }
}

// One lemma per grammar entry: typing any of its aliases alone selects
// that entry with empty arguments. Each alias is shown to be a single
// token, every earlier entry is refuted over the shared foldings, and
// the table scan is evaluated.
proof fn lemma_alias_case_0(j: int, calling: Interface)
    requires
        0 <= j < spec_table()[0].aliases.len(),
    ensures
        spec_classify(spec_table()[0].aliases[j], calling) == spec_action_for(
            spec_table()[0].kind,
            Seq::<Seq<char>>::empty(),
            calling,
        ),
{
    lemma_alias_foldings();
    let alias = spec_table()[0].aliases[j];
    if j == 0 {
        reveal_strlit("Help");
        assert(alias == "Help"@);
        assert(forall|i: int| 0 <= i < "Help"@.len() ==> !spec_is_space("Help"@[i]));
        lemma_single_token(alias);
        let head = spec_lower(alias);
        assert(spec_entry_matches(head, spec_table()[0].aliases)) by {
            assert(spec_lower(spec_table()[0].aliases[0]) == head);
        }
        assert(spec_lookup(head) == Some(0int)) by {
            reveal_with_fuel(spec_lookup_from, 11);
        }
    } else if j == 1 {
        reveal_strlit("HelpAll");
        assert(alias == "HelpAll"@);
        assert(forall|i: int| 0 <= i < "HelpAll"@.len() ==> !spec_is_space("HelpAll"@[i]));
        lemma_single_token(alias);
        let head = spec_lower(alias);
        assert(spec_entry_matches(head, spec_table()[0].aliases)) by {
            assert(spec_lower(spec_table()[0].aliases[1]) == head);
        }
        assert(spec_lookup(head) == Some(0int)) by {
            reveal_with_fuel(spec_lookup_from, 11);
        }
    } else if j == 2 {
        reveal_strlit("Help-All");
        assert(alias == "Help-All"@);
        assert(forall|i: int| 0 <= i < "Help-All"@.len() ==> !spec_is_space("Help-All"@[i]));
        lemma_single_token(alias);
        let head = spec_lower(alias);
        assert(spec_entry_matches(head, spec_table()[0].aliases)) by {
            assert(spec_lower(spec_table()[0].aliases[2]) == head);
        }
        assert(spec_lookup(head) == Some(0int)) by {
            reveal_with_fuel(spec_lookup_from, 11);
        }
    } else if j == 3 {
        reveal_strlit("Help_All");
        assert(alias == "Help_All"@);
        assert(forall|i: int| 0 <= i < "Help_All"@.len() ==> !spec_is_space("Help_All"@[i]));
        lemma_single_token(alias);
        let head = spec_lower(alias);
        assert(spec_entry_matches(head, spec_table()[0].aliases)) by {
            assert(spec_lower(spec_table()[0].aliases[3]) == head);
        }
        assert(spec_lookup(head) == Some(0int)) by {
            reveal_with_fuel(spec_lookup_from, 11);
        }
    } else if j == 4 {
        reveal_strlit("h");
        assert(alias == "h"@);
        assert(forall|i: int| 0 <= i < "h"@.len() ==> !spec_is_space("h"@[i]));
        lemma_single_token(alias);
        let head = spec_lower(alias);
        assert(spec_entry_matches(head, spec_table()[0].aliases)) by {
            assert(spec_lower(spec_table()[0].aliases[4]) == head);
        }
        assert(spec_lookup(head) == Some(0int)) by {
            reveal_with_fuel(spec_lookup_from, 11);
        }
    } else {
        reveal_strlit("?");
        assert(alias == "?"@);
        assert(forall|i: int| 0 <= i < "?"@.len() ==> !spec_is_space("?"@[i]));
        lemma_single_token(alias);
        let head = spec_lower(alias);
        assert(spec_entry_matches(head, spec_table()[0].aliases)) by {
            assert(spec_lower(spec_table()[0].aliases[5]) == head);
        }
        assert(spec_lookup(head) == Some(0int)) by {
            reveal_with_fuel(spec_lookup_from, 11);
        }
    }
}

proof fn lemma_alias_case_1(j: int, calling: Interface)
    requires
        0 <= j < spec_table()[1].aliases.len(),
    ensures
        spec_classify(spec_table()[1].aliases[j], calling) == spec_action_for(
            spec_table()[1].kind,
            Seq::<Seq<char>>::empty(),
            calling,
        ),
{
    lemma_alias_foldings();
    let alias = spec_table()[1].aliases[j];
    if j == 0 {
        reveal_strlit("HelpPane");
        assert(alias == "HelpPane"@);
        assert(forall|i: int| 0 <= i < "HelpPane"@.len() ==> !spec_is_space("HelpPane"@[i]));
        lemma_single_token(alias);
        let head = spec_lower(alias);
        no_match_entry0(head);
        assert(spec_entry_matches(head, spec_table()[1].aliases)) by {
            assert(spec_lower(spec_table()[1].aliases[0]) == head);
        }
        assert(spec_lookup(head) == Some(1int)) by {
            reveal_with_fuel(spec_lookup_from, 11);
        }
    } else if j == 1 {
        reveal_strlit("Help-Pane");
        assert(alias == "Help-Pane"@);
        assert(forall|i: int| 0 <= i < "Help-Pane"@.len() ==> !spec_is_space("Help-Pane"@[i]));
        lemma_single_token(alias);
        let head = spec_lower(alias);
        no_match_entry0(head);
        assert(spec_entry_matches(head, spec_table()[1].aliases)) by {
            assert(spec_lower(spec_table()[1].aliases[1]) == head);
        }
        assert(spec_lookup(head) == Some(1int)) by {
            reveal_with_fuel(spec_lookup_from, 11);
        }
    } else {
        reveal_strlit("Help_Pane");
        assert(alias == "Help_Pane"@);
        assert(forall|i: int| 0 <= i < "Help_Pane"@.len() ==> !spec_is_space("Help_Pane"@[i]));
        lemma_single_token(alias);
        let head = spec_lower(alias);
        no_match_entry0(head);
        assert(spec_entry_matches(head, spec_table()[1].aliases)) by {
            assert(spec_lower(spec_table()[1].aliases[2]) == head);
        }
        assert(spec_lookup(head) == Some(1int)) by {
            reveal_with_fuel(spec_lookup_from, 11);
        }
    }
}

proof fn lemma_alias_case_2(j: int, calling: Interface)
    requires
        0 <= j < spec_table()[2].aliases.len(),
    ensures
        spec_classify(spec_table()[2].aliases[j], calling) == spec_action_for(
            spec_table()[2].kind,
            Seq::<Seq<char>>::empty(),
            calling,
        ),
{
    lemma_alias_foldings();
    let alias = spec_table()[2].aliases[j];
    if j == 0 {
        reveal_strlit("HelpPipe");
        assert(alias == "HelpPipe"@);
        assert(forall|i: int| 0 <= i < "HelpPipe"@.len() ==> !spec_is_space("HelpPipe"@[i]));
        lemma_single_token(alias);
        let head = spec_lower(alias);
        no_match_entry0(head);
        no_match_entry1(head);
        assert(spec_entry_matches(head, spec_table()[2].aliases)) by {
            assert(spec_lower(spec_table()[2].aliases[0]) == head);
        }
        assert(spec_lookup(head) == Some(2int)) by {
            reveal_with_fuel(spec_lookup_from, 11);
        }
    } else if j == 1 {
        reveal_strlit("Help-Pipe");
        assert(alias == "Help-Pipe"@);
        assert(forall|i: int| 0 <= i < "Help-Pipe"@.len() ==> !spec_is_space("Help-Pipe"@[i]));
        lemma_single_token(alias);
        let head = spec_lower(alias);
        no_match_entry0(head);
        no_match_entry1(head);
        assert(spec_entry_matches(head, spec_table()[2].aliases)) by {
            assert(spec_lower(spec_table()[2].aliases[1]) == head);
        }
        assert(spec_lookup(head) == Some(2int)) by {
            reveal_with_fuel(spec_lookup_from, 11);
        }
    } else {
        reveal_strlit("Help_Pipe");
        assert(alias == "Help_Pipe"@);
        assert(forall|i: int| 0 <= i < "Help_Pipe"@.len() ==> !spec_is_space("Help_Pipe"@[i]));
        lemma_single_token(alias);
        let head = spec_lower(alias);
        no_match_entry0(head);
        no_match_entry1(head);
        assert(spec_entry_matches(head, spec_table()[2].aliases)) by {
            assert(spec_lower(spec_table()[2].aliases[2]) == head);
        }
        assert(spec_lookup(head) == Some(2int)) by {
            reveal_with_fuel(spec_lookup_from, 11);
        }
    }
}

proof fn lemma_alias_case_3(j: int, calling: Interface)
    requires
        0 <= j < spec_table()[3].aliases.len(),
    ensures
        spec_classify(spec_table()[3].aliases[j], calling) == spec_action_for(
            spec_table()[3].kind,
            Seq::<Seq<char>>::empty(),
            calling,
        ),
{
    lemma_alias_foldings();
    let alias = spec_table()[3].aliases[j];
    if j == 0 {
        reveal_strlit("DetachEveryone");
        assert(alias == "DetachEveryone"@);
        assert(forall|i: int| 0 <= i < "DetachEveryone"@.len() ==> !spec_is_space("DetachEveryone"@[i]));
        lemma_single_token(alias);
        let head = spec_lower(alias);
        no_match_entry0(head);
        no_match_entry1(head);
        no_match_entry2(head);
        assert(spec_entry_matches(head, spec_table()[3].aliases)) by {
            assert(spec_lower(spec_table()[3].aliases[0]) == head);
        }
        assert(spec_lookup(head) == Some(3int)) by {
            reveal_with_fuel(spec_lookup_from, 11);
        }
    } else if j == 1 {
        reveal_strlit("Detach-Everyone");
        assert(alias == "Detach-Everyone"@);
        assert(forall|i: int| 0 <= i < "Detach-Everyone"@.len() ==> !spec_is_space("Detach-Everyone"@[i]));
        lemma_single_token(alias);
        let head = spec_lower(alias);
        no_match_entry0(head);
        no_match_entry1(head);
        no_match_entry2(head);
        assert(spec_entry_matches(head, spec_table()[3].aliases)) by {
            assert(spec_lower(spec_table()[3].aliases[1]) == head);
        }
        assert(spec_lookup(head) == Some(3int)) by {
            reveal_with_fuel(spec_lookup_from, 11);
        }
    } else {
        reveal_strlit("Detach_Everyone");
        assert(alias == "Detach_Everyone"@);
        assert(forall|i: int| 0 <= i < "Detach_Everyone"@.len() ==> !spec_is_space("Detach_Everyone"@[i]));
        lemma_single_token(alias);
        let head = spec_lower(alias);
        no_match_entry0(head);
        no_match_entry1(head);
        no_match_entry2(head);
        assert(spec_entry_matches(head, spec_table()[3].aliases)) by {
            assert(spec_lower(spec_table()[3].aliases[2]) == head);
        }
        assert(spec_lookup(head) == Some(3int)) by {
            reveal_with_fuel(spec_lookup_from, 11);
        }
    }
}

proof fn lemma_alias_case_4(j: int, calling: Interface)
    requires
        0 <= j < spec_table()[4].aliases.len(),
    ensures
        spec_classify(spec_table()[4].aliases[j], calling) == spec_action_for(
            spec_table()[4].kind,
            Seq::<Seq<char>>::empty(),
            calling,
        ),
{
    lemma_alias_foldings();
    let alias = spec_table()[4].aliases[j];
    if j == 0 {
        reveal_strlit("DetachMe");
        assert(alias == "DetachMe"@);
        assert(forall|i: int| 0 <= i < "DetachMe"@.len() ==> !spec_is_space("DetachMe"@[i]));
        lemma_single_token(alias);
        let head = spec_lower(alias);
        no_match_entry0(head);
        no_match_entry1(head);
        no_match_entry2(head);
        no_match_entry3(head);
        assert(spec_entry_matches(head, spec_table()[4].aliases)) by {
            assert(spec_lower(spec_table()[4].aliases[0]) == head);
        }
        assert(spec_lookup(head) == Some(4int)) by {
            reveal_with_fuel(spec_lookup_from, 11);
        }
    } else if j == 1 {
        reveal_strlit("Detach-Me");
        assert(alias == "Detach-Me"@);
        assert(forall|i: int| 0 <= i < "Detach-Me"@.len() ==> !spec_is_space("Detach-Me"@[i]));
        lemma_single_token(alias);
        let head = spec_lower(alias);
        no_match_entry0(head);
        no_match_entry1(head);
        no_match_entry2(head);
        no_match_entry3(head);
        assert(spec_entry_matches(head, spec_table()[4].aliases)) by {
            assert(spec_lower(spec_table()[4].aliases[1]) == head);
        }
        assert(spec_lookup(head) == Some(4int)) by {
            reveal_with_fuel(spec_lookup_from, 11);
        }
    } else {
        reveal_strlit("Detach_Me");
        assert(alias == "Detach_Me"@);
        assert(forall|i: int| 0 <= i < "Detach_Me"@.len() ==> !spec_is_space("Detach_Me"@[i]));
        lemma_single_token(alias);
        let head = spec_lower(alias);
        no_match_entry0(head);
        no_match_entry1(head);
        no_match_entry2(head);
        no_match_entry3(head);
        assert(spec_entry_matches(head, spec_table()[4].aliases)) by {
            assert(spec_lower(spec_table()[4].aliases[2]) == head);
        }
        assert(spec_lookup(head) == Some(4int)) by {
            reveal_with_fuel(spec_lookup_from, 11);
        }
    }
}

proof fn lemma_alias_case_5(j: int, calling: Interface)
    requires
        0 <= j < spec_table()[5].aliases.len(),
    ensures
        spec_classify(spec_table()[5].aliases[j], calling) == spec_action_for(
            spec_table()[5].kind,
            Seq::<Seq<char>>::empty(),
            calling,
        ),
{
    lemma_alias_foldings();
    let alias = spec_table()[5].aliases[j];
    if j == 0 {
        reveal_strlit("DetachOthers");
        assert(alias == "DetachOthers"@);
        assert(forall|i: int| 0 <= i < "DetachOthers"@.len() ==> !spec_is_space("DetachOthers"@[i]));
        lemma_single_token(alias);
        let head = spec_lower(alias);
        no_match_entry0(head);
        no_match_entry1(head);
        no_match_entry2(head);
        no_match_entry3(head);
        no_match_entry4(head);
        assert(spec_entry_matches(head, spec_table()[5].aliases)) by {
            assert(spec_lower(spec_table()[5].aliases[0]) == head);
        }
        assert(spec_lookup(head) == Some(5int)) by {
            reveal_with_fuel(spec_lookup_from, 11);
        }
    } else if j == 1 {
        reveal_strlit("Detach-Others");
        assert(alias == "Detach-Others"@);
        assert(forall|i: int| 0 <= i < "Detach-Others"@.len() ==> !spec_is_space("Detach-Others"@[i]));
        lemma_single_token(alias);
        let head = spec_lower(alias);
        no_match_entry0(head);
        no_match_entry1(head);
        no_match_entry2(head);
        no_match_entry3(head);
        no_match_entry4(head);
        assert(spec_entry_matches(head, spec_table()[5].aliases)) by {
            assert(spec_lower(spec_table()[5].aliases[1]) == head);
        }
        assert(spec_lookup(head) == Some(5int)) by {
            reveal_with_fuel(spec_lookup_from, 11);
        }
    } else {
        reveal_strlit("Detach_Others");
        assert(alias == "Detach_Others"@);
        assert(forall|i: int| 0 <= i < "Detach_Others"@.len() ==> !spec_is_space("Detach_Others"@[i]));
        lemma_single_token(alias);
        let head = spec_lower(alias);
        no_match_entry0(head);
        no_match_entry1(head);
        no_match_entry2(head);
        no_match_entry3(head);
        no_match_entry4(head);
        assert(spec_entry_matches(head, spec_table()[5].aliases)) by {
            assert(spec_lower(spec_table()[5].aliases[2]) == head);
        }
        assert(spec_lookup(head) == Some(5int)) by {
            reveal_with_fuel(spec_lookup_from, 11);
        }
    }
}

proof fn lemma_alias_case_6(j: int, calling: Interface)
    requires
        0 <= j < spec_table()[6].aliases.len(),
    ensures
        spec_classify(spec_table()[6].aliases[j], calling) == spec_action_for(
            spec_table()[6].kind,
            Seq::<Seq<char>>::empty(),
            calling,
        ),
{
    lemma_alias_foldings();
    let alias = spec_table()[6].aliases[j];
    if j == 0 {
        reveal_strlit("Edit");
        assert(alias == "Edit"@);
        assert(forall|i: int| 0 <= i < "Edit"@.len() ==> !spec_is_space("Edit"@[i]));
        lemma_single_token(alias);
        let head = spec_lower(alias);
        no_match_entry0(head);
        no_match_entry1(head);
        no_match_entry2(head);
        no_match_entry3(head);
        no_match_entry4(head);
        no_match_entry5(head);
        assert(spec_entry_matches(head, spec_table()[6].aliases)) by {
            assert(spec_lower(spec_table()[6].aliases[0]) == head);
        }
        assert(spec_lookup(head) == Some(6int)) by {
            reveal_with_fuel(spec_lookup_from, 11);
        }
    }
}

proof fn lemma_alias_case_7(j: int, calling: Interface)
    requires
        0 <= j < spec_table()[7].aliases.len(),
    ensures
        spec_classify(spec_table()[7].aliases[j], calling) == spec_action_for(
            spec_table()[7].kind,
            Seq::<Seq<char>>::empty(),
            calling,
        ),
{
    lemma_alias_foldings();
    let alias = spec_table()[7].aliases[j];
    if j == 0 {
        reveal_strlit("NewPane");
        assert(alias == "NewPane"@);
        assert(forall|i: int| 0 <= i < "NewPane"@.len() ==> !spec_is_space("NewPane"@[i]));
        lemma_single_token(alias);
        let head = spec_lower(alias);
        no_match_entry0(head);
        no_match_entry1(head);
        no_match_entry2(head);
        no_match_entry3(head);
        no_match_entry4(head);
        no_match_entry5(head);
        no_match_entry6(head);
        assert(spec_entry_matches(head, spec_table()[7].aliases)) by {
            assert(spec_lower(spec_table()[7].aliases[0]) == head);
        }
        assert(spec_lookup(head) == Some(7int)) by {
            reveal_with_fuel(spec_lookup_from, 11);
        }
    } else if j == 1 {
        reveal_strlit("New-Pane");
        assert(alias == "New-Pane"@);
        assert(forall|i: int| 0 <= i < "New-Pane"@.len() ==> !spec_is_space("New-Pane"@[i]));
        lemma_single_token(alias);
        let head = spec_lower(alias);
        no_match_entry0(head);
        no_match_entry1(head);
        no_match_entry2(head);
        no_match_entry3(head);
        no_match_entry4(head);
        no_match_entry5(head);
        no_match_entry6(head);
        assert(spec_entry_matches(head, spec_table()[7].aliases)) by {
            assert(spec_lower(spec_table()[7].aliases[1]) == head);
        }
        assert(spec_lookup(head) == Some(7int)) by {
            reveal_with_fuel(spec_lookup_from, 11);
        }
    } else if j == 2 {
        reveal_strlit("New_Pane");
        assert(alias == "New_Pane"@);
        assert(forall|i: int| 0 <= i < "New_Pane"@.len() ==> !spec_is_space("New_Pane"@[i]));
        lemma_single_token(alias);
        let head = spec_lower(alias);
        no_match_entry0(head);
        no_match_entry1(head);
        no_match_entry2(head);
        no_match_entry3(head);
        no_match_entry4(head);
        no_match_entry5(head);
        no_match_entry6(head);
        assert(spec_entry_matches(head, spec_table()[7].aliases)) by {
            assert(spec_lower(spec_table()[7].aliases[2]) == head);
        }
        assert(spec_lookup(head) == Some(7int)) by {
            reveal_with_fuel(spec_lookup_from, 11);
        }
    } else {
        reveal_strlit("np");
        assert(alias == "np"@);
        assert(forall|i: int| 0 <= i < "np"@.len() ==> !spec_is_space("np"@[i]));
        lemma_single_token(alias);
        let head = spec_lower(alias);
        no_match_entry0(head);
        no_match_entry1(head);
        no_match_entry2(head);
        no_match_entry3(head);
        no_match_entry4(head);
        no_match_entry5(head);
        no_match_entry6(head);
        assert(spec_entry_matches(head, spec_table()[7].aliases)) by {
            assert(spec_lower(spec_table()[7].aliases[3]) == head);
        }
        assert(spec_lookup(head) == Some(7int)) by {
            reveal_with_fuel(spec_lookup_from, 11);
        }
    }
}

proof fn lemma_alias_case_8(j: int, calling: Interface)
    requires
        0 <= j < spec_table()[8].aliases.len(),
    ensures
        spec_classify(spec_table()[8].aliases[j], calling) == spec_action_for(
            spec_table()[8].kind,
            Seq::<Seq<char>>::empty(),
            calling,
        ),
{
    lemma_alias_foldings();
    let alias = spec_table()[8].aliases[j];
    if j == 0 {
        reveal_strlit("Run");
        assert(alias == "Run"@);
        assert(forall|i: int| 0 <= i < "Run"@.len() ==> !spec_is_space("Run"@[i]));
        lemma_single_token(alias);
        let head = spec_lower(alias);
        no_match_entry0(head);
        no_match_entry1(head);
        no_match_entry2(head);
        no_match_entry3(head);
        no_match_entry4(head);
        no_match_entry5(head);
        no_match_entry6(head);
        no_match_entry7(head);
        assert(spec_entry_matches(head, spec_table()[8].aliases)) by {
            assert(spec_lower(spec_table()[8].aliases[0]) == head);
        }
        assert(spec_lookup(head) == Some(8int)) by {
            reveal_with_fuel(spec_lookup_from, 11);
        }
    }
}

/// Alias coverage: every declared alias of every grammar entry, typed
/// alone on a line, classifies to that entry's kind with default, empty
/// arguments — under any calling interface.
pub proof fn lemma_alias_coverage(k: int, j: int, calling: Interface)
    requires
        0 <= k < spec_table().len(),
        0 <= j < spec_table()[k].aliases.len(),
    ensures
        spec_classify(spec_table()[k].aliases[j], calling) == spec_action_for(
            spec_table()[k].kind,
            Seq::<Seq<char>>::empty(),
            calling,
        ),
{
    if k == 0 {
        lemma_alias_case_0(j, calling);
    } else if k == 1 {
        lemma_alias_case_1(j, calling);
    } else if k == 2 {
        lemma_alias_case_2(j, calling);
    } else if k == 3 {
        lemma_alias_case_3(j, calling);
    } else if k == 4 {
        lemma_alias_case_4(j, calling);
    } else if k == 5 {
        lemma_alias_case_5(j, calling);
    } else if k == 6 {
        lemma_alias_case_6(j, calling);
    } else if k == 7 {
        lemma_alias_case_7(j, calling);
    } else {
        lemma_alias_case_8(j, calling);
    }
}

/// Empty input: an empty (or whitespace-only head) line classifies to
/// `Unrecognized` and is never wrapped as unavailable, whatever interface
/// asks.
pub proof fn lemma_empty_input_unrecognized(calling: Interface)
    ensures
        (spec_resolve(Seq::<char>::empty(), calling) == ResolvedModel {
            kind: ActionModel::Unrecognized,
            rejected_by: None,
        }),
{
    let e = Seq::<char>::empty();
    assert(spec_tokens(e) =~= Seq::<Seq<char>>::empty());
    let head = spec_head(e);
    assert(head.len() == 0);
    lemma_alias_foldings();
    no_match_entry0(head);
    no_match_entry1(head);
    no_match_entry2(head);
    no_match_entry3(head);
    no_match_entry4(head);
    no_match_entry5(head);
    no_match_entry6(head);
    no_match_entry7(head);
    no_match_entry8(head);
    assert(spec_lookup(head) == None::<int>) by {
        reveal_with_fuel(spec_lookup_from, 11);
    }
}

} // verus!
