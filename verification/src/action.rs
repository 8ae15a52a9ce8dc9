//! The structured actions classification produces, their mathematical
//! models, and the flat availability record the interface capability filter
//! returns.

use vstd::prelude::*;
use crate::interface::Interface;
use crate::grammar::{EntryKind, HelpScope, spec_entry_interface, spec_count};
use crate::selection::Selection;

verus! {

/// One structured action, the result of classifying a line of text.
#[derive(Debug, Clone, PartialEq, Eq)]
pub enum ActionKind {
    /// The head token matched no grammar entry; the user can keep typing.
    Unrecognized,
    /// Browse the help listing for one subset of the grammar table.
    Help { scope: HelpScope, selection: Selection },
    /// Detach every client from the current session.
    DetachEveryone,
    /// Detach the issuing client from the current session.
    DetachMe,
    /// Detach the other clients from the current session.
    DetachOthers,
    /// Edit a file, optionally at a given line.
    Edit { path: String, line: Option<usize> },
    /// Open a new pane at the given path.
    NewPane { path: String },
    /// Run an executable with arguments, an optional working directory and
    /// optional environment overrides. The overrides form a mapping kept
    /// as pairs in the order typed; an executor applies them in that
    /// order, so on a repeated key the last occurrence wins.
    Run {
        executable: String,
        args: Vec<String>,
        cwd: Option<String>,
        env: Vec<(String, String)>,
    },
}

impl Default for ActionKind {
    /// Before any text is classified, nothing is recognized.
    fn default() -> (r: Self)
        ensures
            r == ActionKind::Unrecognized,
    {
        ActionKind::Unrecognized
    }
}

/// The mathematical model of an action.
#[verifier::ext_equal]
pub enum ActionModel {
    Unrecognized,
    Help { scope: HelpScope, selection: Selection },
    DetachEveryone,
    DetachMe,
    DetachOthers,
    Edit { path: Seq<char>, line: Option<usize> },
    NewPane { path: Seq<char> },
    Run {
        executable: Seq<char>,
        args: Seq<Seq<char>>,
        cwd: Option<Seq<char>>,
        env: Seq<(Seq<char>, Seq<char>)>,
    },
}

impl View for ActionKind {
    type V = ActionModel;

    open spec fn view(&self) -> ActionModel {
        match self {
            ActionKind::Unrecognized => ActionModel::Unrecognized,
            ActionKind::Help { scope, selection } => ActionModel::Help {
                scope: *scope,
                selection: *selection,
            },
            ActionKind::DetachEveryone => ActionModel::DetachEveryone,
            ActionKind::DetachMe => ActionModel::DetachMe,
            ActionKind::DetachOthers => ActionModel::DetachOthers,
            ActionKind::Edit { path, line } => ActionModel::Edit { path: path@, line: *line },
            ActionKind::NewPane { path } => ActionModel::NewPane { path: path@ },
            ActionKind::Run { executable, args, cwd, env } => ActionModel::Run {
                executable: executable@,
                args: args.deep_view(),
                cwd: cwd.deep_view(),
                env: env.deep_view(),
            },
        }
    }
}

/// The grammar entry family an action belongs to; `Unrecognized` belongs to
/// none.
pub open spec fn spec_kind_of(a: ActionModel) -> Option<EntryKind> {
    match a {
        ActionModel::Unrecognized => None,
        ActionModel::Help { scope, .. } => Some(
            match scope {
                HelpScope::AllCommands => EntryKind::HelpAll,
                HelpScope::ConsoleCommands => EntryKind::HelpConsole,
                HelpScope::PipeCommands => EntryKind::HelpPipe,
            },
        ),
        ActionModel::DetachEveryone => Some(EntryKind::DetachEveryone),
        ActionModel::DetachMe => Some(EntryKind::DetachMe),
        ActionModel::DetachOthers => Some(EntryKind::DetachOthers),
        ActionModel::Edit { .. } => Some(EntryKind::Edit),
        ActionModel::NewPane { .. } => Some(EntryKind::NewPane),
        ActionModel::Run { .. } => Some(EntryKind::Run),
    }
}

/// The interface restriction an action carries, from its grammar entry;
/// `Unrecognized` carries none.
pub open spec fn spec_action_tag(a: ActionModel) -> Interface {
    match spec_kind_of(a) {
        None => Interface::All,
        Some(k) => spec_entry_interface(k),
    }
}

/// Runtime counterpart of [`spec_kind_of`].
pub fn entry_kind_of(a: &ActionKind) -> (r: Option<EntryKind>)
    ensures
        r == spec_kind_of(a@),
{
    match a {
        ActionKind::Unrecognized => None,
        ActionKind::Help { scope, .. } => Some(
            match scope {
                HelpScope::AllCommands => EntryKind::HelpAll,
                HelpScope::ConsoleCommands => EntryKind::HelpConsole,
                HelpScope::PipeCommands => EntryKind::HelpPipe,
            },
        ),
        ActionKind::DetachEveryone => Some(EntryKind::DetachEveryone),
        ActionKind::DetachMe => Some(EntryKind::DetachMe),
        ActionKind::DetachOthers => Some(EntryKind::DetachOthers),
        ActionKind::Edit { .. } => Some(EntryKind::Edit),
        ActionKind::NewPane { .. } => Some(EntryKind::NewPane),
        ActionKind::Run { .. } => Some(EntryKind::Run),
    }
}

/// A syntactically classified action together with its availability: the
/// result of running the interface capability filter. `rejected_by` is
/// `None` when the action may run from the interface that asked, and names
/// the rejecting interface otherwise. An action is wrapped at most once, so
/// a flat record replaces nested wrapping.
#[derive(Debug, Clone, PartialEq, Eq)]
pub struct ResolvedAction {
    pub kind: ActionKind,
    pub rejected_by: Option<Interface>,
}

/// The mathematical model of a resolved action.
#[verifier::ext_equal]
pub struct ResolvedModel {
    pub kind: ActionModel,
    pub rejected_by: Option<Interface>,
}

impl View for ResolvedAction {
    type V = ResolvedModel;

    open spec fn view(&self) -> ResolvedModel {
        ResolvedModel { kind: self.kind@, rejected_by: self.rejected_by }
    }
}

/// Well-formedness of an action: any help cursor is over exactly the rows
/// its scope shows, with the row inside the bound; an unrecognized result
/// is never marked unavailable.
pub open spec fn spec_action_wf(m: ResolvedModel) -> bool {
    &&& (m.kind matches ActionModel::Help { scope, selection } ==> {
        &&& selection.wf()
        &&& (selection matches Selection::Cursor { bound, .. } ==> bound == spec_count(scope))
    })
    &&& (m.kind is Unrecognized ==> m.rejected_by is None)
}

impl ResolvedAction {
    /// Whether an executor may run this action: never for `Unrecognized`,
    /// and for an unavailable action only under an explicit force override.
    pub fn should_execute(&self, force: bool) -> (r: bool)
        ensures
            r == (!(self@.kind is Unrecognized) && (self@.rejected_by is None || force)),
    {
        !matches!(self.kind, ActionKind::Unrecognized) && (self.rejected_by.is_none() || force)
    }
}

} // verus!
