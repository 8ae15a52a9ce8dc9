//! The calling interface: who is asking for a command.

use vstd::prelude::*;

verus! {

/// Identifies where a command came from.
///
/// `All` is used only as a no-restriction calling context (for example when
/// the source is ambiguous, or when the buffer is cleared and no interface
/// context survives). As a restriction tag on a grammar entry it means the
/// entry is usable everywhere.
#[derive(Debug, Clone, Copy, PartialEq, Eq, Structural)]
pub enum Interface {
    All,
    Console,
    Pipe,
}

impl Default for Interface {
    /// With no context known, no restriction is assumed.
    fn default() -> (r: Self)
        ensures
            r == Interface::All,
    {
        Interface::All
    }
}

/// Whether an entry tagged `tag` may be invoked from the calling interface
/// `calling`. An `All` tag is usable everywhere; an `All` caller carries no
/// restriction.
pub open spec fn spec_tag_allows(tag: Interface, calling: Interface) -> bool {
    calling is All || tag is All || tag == calling
}

/// Runtime counterpart of [`spec_tag_allows`].
pub fn tag_allows(tag: Interface, calling: Interface) -> (r: bool)
    ensures
        r == spec_tag_allows(tag, calling),
{
    match calling {
        Interface::All => true,
        Interface::Console => matches!(tag, Interface::All | Interface::Console),
        Interface::Pipe => matches!(tag, Interface::All | Interface::Pipe),
    }
}

} // verus!
