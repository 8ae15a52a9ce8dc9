//! The command buffer: owns the raw text being edited and the action last
//! derived from it. Every mutation re-runs classification and filtering
//! from scratch on the whole buffer — a deliberate trade of processor time
//! for simplicity and freshness, with no dirty flag and no debouncing — so
//! a reader never sees an action that is stale with respect to the text.

use vstd::prelude::*;
use crate::interface::Interface;
use crate::grammar::{HelpScope, spec_visible, visible_entries};
use crate::action::{ActionModel, ResolvedAction, ResolvedModel, spec_action_wf};
use crate::selection::Selection;
use crate::classify::{spec_resolve, classify_and_filter, lemma_resolve_wf};
use crate::text::{push_char, pop_char, spec_utf8_len};
use vstd::string::StringExecFns;

verus! {

/// The moves a help selection makes inside a stored action: anything other
/// than a cursor inside a help action is left untouched.
pub open spec fn spec_selection_down(m: ResolvedModel) -> ResolvedModel {
    match m.kind {
        ActionModel::Help { scope, selection } => ResolvedModel {
            kind: ActionModel::Help { scope, selection: selection.spec_advance() },
            rejected_by: m.rejected_by,
        },
        _ => m,
    }
}

/// See [`spec_selection_down`]; the upward move.
pub open spec fn spec_selection_up(m: ResolvedModel) -> ResolvedModel {
    match m.kind {
        ActionModel::Help { scope, selection } => ResolvedModel {
            kind: ActionModel::Help { scope, selection: selection.spec_retreat() },
            rejected_by: m.rejected_by,
        },
        _ => m,
    }
}

/// The command a confirmed help selection substitutes into the buffer: the
/// canonical name of the visible row under the cursor. `None` when the
/// stored action is not a help listing or carries no cursor; confirmation
/// is then a no-op for the buffer.
pub open spec fn spec_confirm_target(m: ResolvedModel) -> Option<Seq<char>> {
    match m.kind {
        ActionModel::Help { scope, selection } => match selection {
            Selection::Cursor { row, .. } => Some(spec_visible(scope)[row as int].aliases[0]),
            Selection::Unbounded => None,
        },
        _ => None,
    }
}

/// An owned, mutable command line plus the action last computed from it.
/// The stored action is always the result of classifying the current text
/// under the interface of the latest mutation.
pub struct CommandBuffer {
    text: String,
    action: ResolvedAction,
}

impl CommandBuffer {
    /// The characters currently in the buffer.
    pub closed spec fn spec_text(&self) -> Seq<char> {
        self.text@
    }

    /// The stored resolved action.
    pub closed spec fn spec_action(&self) -> ResolvedModel {
        self.action@
    }

    /// The buffer invariant: the stored action is well formed (its help
    /// cursor, if any, is inside the bound of its scope's listing).
    pub open spec fn wf(&self) -> bool {
        spec_action_wf(self.spec_action())
    }

    /// An empty buffer; with no interface context yet, classification runs
    /// unrestricted.
    pub fn new() -> (r: Self)
        ensures
            r.wf(),
            r.spec_text() == Seq::<char>::empty(),
            (r.spec_action() == spec_resolve(Seq::<char>::empty(), Interface::All)),
    {
        let text = String::new();
        let action = classify_and_filter(text.as_str(), Interface::All);
        proof {
            lemma_resolve_wf(text@, Interface::All);
        }
        CommandBuffer { text, action }
    }

    /// Replaces the whole text, reclassifying under `calling`.
    pub fn set(&mut self, command: &str, calling: Interface)
        ensures
            final(self).wf(),
            final(self).spec_text() == command@,
            (final(self).spec_action() == spec_resolve(command@, calling)),
    {
        self.text = String::from_str(command);
        self.action = classify_and_filter(self.text.as_str(), calling);
        proof {
            lemma_resolve_wf(self.text@, calling);
        }
    }

    /// Appends one character, reclassifying under `calling`.
    pub fn push(&mut self, c: char, calling: Interface)
        ensures
            final(self).wf(),
            final(self).spec_text() == old(self).spec_text().push(c),
            (final(self).spec_action() == spec_resolve(final(self).spec_text(), calling)),
    {
        push_char(&mut self.text, c);
        self.action = classify_and_filter(self.text.as_str(), calling);
        proof {
            lemma_resolve_wf(self.text@, calling);
        }
    }

    /// Removes and returns the last character, if any, reclassifying under
    /// `calling`.
    pub fn pop(&mut self, calling: Interface) -> (r: Option<char>)
        ensures
            final(self).wf(),
            old(self).spec_text().len() == 0 ==> r is None && final(self).spec_text()
                == old(self).spec_text(),
            old(self).spec_text().len() > 0 ==> r == Some(old(self).spec_text().last())
                && final(self).spec_text() == old(self).spec_text().drop_last(),
            (final(self).spec_action() == spec_resolve(final(self).spec_text(), calling)),
    {
        let r = pop_char(&mut self.text);
        self.action = classify_and_filter(self.text.as_str(), calling);
        proof {
            lemma_resolve_wf(self.text@, calling);
        }
        r
    }

    /// Empties the buffer. Clearing discards whatever action was stored,
    /// and no interface context survives it, so reclassification runs
    /// unrestricted.
    pub fn clear(&mut self)
        ensures
            final(self).wf(),
            final(self).spec_text() == Seq::<char>::empty(),
            (final(self).spec_action() == spec_resolve(Seq::<char>::empty(), Interface::All)),
    {
        self.text = String::new();
        self.action = classify_and_filter(self.text.as_str(), Interface::All);
        proof {
            lemma_resolve_wf(self.text@, Interface::All);
        }
    }

    /// The length in bytes of the buffer's UTF-8 text, as `String::len`
    /// reports it. The cast mirrors `String::len` itself; a string's byte
    /// length always fits in `usize`, so the second clause is the one a
    /// caller sees in practice.
    pub fn len(&self) -> (r: usize)
        ensures
            r == spec_utf8_len(self.spec_text()) as usize,
            spec_utf8_len(self.spec_text()) <= usize::MAX ==> r == spec_utf8_len(
                self.spec_text(),
            ),
    {
        self.text.as_str().len()
    }

    /// The current text.
    pub fn text(&self) -> (r: String)
        ensures
            r@ == self.spec_text(),
    {
        self.text.clone()
    }

    /// The stored resolved action, for rendering or execution.
    pub fn action(&self) -> (r: &ResolvedAction)
        ensures
            r@ == self.spec_action(),
    {
        &self.action
    }

    /// Moves a help selection cursor down one row, wrapping at the end; a
    /// no-op when the stored action is not a help listing or has no
    /// cursor. The text is untouched.
    pub fn selection_down(&mut self)
        requires
            old(self).wf(),
        ensures
            final(self).wf(),
            final(self).spec_text() == old(self).spec_text(),
            (final(self).spec_action() == spec_selection_down(old(self).spec_action())),
    {
        match &self.action.kind {
            crate::action::ActionKind::Help { scope, selection } => {
                let scope = *scope;
                let next = selection.advance();
                self.action = ResolvedAction {
                    kind: crate::action::ActionKind::Help { scope, selection: next },
                    rejected_by: self.action.rejected_by,
                };
            }
            _ => (),
        }
    }

    /// Moves a help selection cursor up one row, wrapping at the start; a
    /// no-op in the same cases as [`CommandBuffer::selection_down`].
    pub fn selection_up(&mut self)
        requires
            old(self).wf(),
        ensures
            final(self).wf(),
            final(self).spec_text() == old(self).spec_text(),
            (final(self).spec_action() == spec_selection_up(old(self).spec_action())),
    {
        match &self.action.kind {
            crate::action::ActionKind::Help { scope, selection } => {
                let scope = *scope;
                let next = selection.retreat();
                self.action = ResolvedAction {
                    kind: crate::action::ActionKind::Help { scope, selection: next },
                    rejected_by: self.action.rejected_by,
                };
            }
            _ => (),
        }
    }

    /// Confirms the help row under the cursor: the buffer text is replaced
    /// by that entry's canonical name and reclassified under the console
    /// interface — selection commits by textual substitution, not by
    /// direct action injection. Without a cursor, confirmation is a no-op
    /// for the buffer and the host renders all rows expanded instead.
    pub fn confirm_selection(&mut self)
        requires
            old(self).wf(),
        ensures
            final(self).wf(),
            spec_confirm_target(old(self).spec_action()) is None ==> *final(self) == *old(self),
            spec_confirm_target(old(self).spec_action()) matches Some(cmd)
                ==> final(self).spec_text() == cmd && final(self).spec_action() == spec_resolve(
                cmd,
                Interface::Console,
            ),
    {
        let target: Option<(HelpScope, usize)> = match &self.action.kind {
            crate::action::ActionKind::Help {
                scope,
                selection: Selection::Cursor { row, .. },
            } => Some((*scope, *row)),
            _ => None,
        };
        match target {
            Some((scope, row)) => {
                let entries = visible_entries(scope);
                proof {
                    crate::grammar::lemma_visible_aliases_nonempty(scope);
                    assert(entries@[row as int]@ == spec_visible(scope)[row as int]);
                }
                let name = entries[row].aliases[0].clone();
                self.set(name.as_str(), Interface::Console);
            }
            None => (),
        }
    }
}

impl Default for CommandBuffer {
    /// Same as [`CommandBuffer::new`].
    fn default() -> (r: Self)
        ensures
            r.wf(),
            r.spec_text() == Seq::<char>::empty(),
            (r.spec_action() == spec_resolve(Seq::<char>::empty(), Interface::All)),
    {
        CommandBuffer::new()
    }
}

} // verus!
