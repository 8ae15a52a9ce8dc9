//! Where a `Run` command takes its environment from: the session the host
//! manages, or the user's default shell. A toggle the host flips from a
//! key binding.

use vstd::prelude::*;
use vstd::string::StringExecFns;

verus! {

/// The environment a `Run` command is launched in.
#[derive(Debug, Clone, Copy, PartialEq, Eq, Structural)]
pub enum EnvironmentFrom {
    /// Run the executable directly, inheriting the session's environment.
    ZellijSession,
    /// Run the command line through the default shell instead.
    DefaultShell,
}

impl Default for EnvironmentFrom {
    /// The session environment is used until the user switches.
    fn default() -> (r: Self)
        ensures
            r == EnvironmentFrom::ZellijSession,
    {
        EnvironmentFrom::ZellijSession
    }
}

impl EnvironmentFrom {
    /// Steps to the next environment choice; with two choices this is a
    /// toggle.
    pub fn progress(&mut self)
        ensures
            *old(self) is ZellijSession ==> *final(self) is DefaultShell,
            *old(self) is DefaultShell ==> *final(self) is ZellijSession,
    {
        match self {
            EnvironmentFrom::ZellijSession => *self = EnvironmentFrom::DefaultShell,
            EnvironmentFrom::DefaultShell => *self = EnvironmentFrom::ZellijSession,
        }
    }
}

/// Rewrites a resolved `Run` command for the chosen environment: the
/// session environment leaves it untouched; the default shell wraps it as
/// `fish -c <executable> <args...>`.
pub fn apply_environment(executable: String, args: Vec<String>, from: EnvironmentFrom) -> (r: (
    String,
    Vec<String>,
))
    ensures
        from is ZellijSession ==> r.0@ == executable@ && r.1.deep_view() == args.deep_view(),
        from is DefaultShell ==> r.0@ == "fish"@ && (r.1.deep_view() == seq!["-c"@, executable@]
            + args.deep_view()),
{
    match from {
        EnvironmentFrom::ZellijSession => (executable, args),
        EnvironmentFrom::DefaultShell => {
            let ghost exe_chars: Seq<char> = executable@;
            let mut wrapped: Vec<String> = Vec::new();
            wrapped.push(String::from_str("-c"));
            wrapped.push(executable);
            proof {
                assert(wrapped.deep_view() =~~= seq!["-c"@, exe_chars]);
            }
            let mut i: usize = 0;
            while i < args.len()
                invariant
                    i <= args@.len(),
                    wrapped.deep_view() =~~= seq!["-c"@, exe_chars] + args.deep_view().take(
                        i as int,
                    ),
                decreases args@.len() - i,
            {
                let ghost prev: Seq<Seq<char>> = wrapped.deep_view();
                wrapped.push(args[i].clone());
                proof {
                    assert(wrapped.deep_view() =~~= prev.push(args.deep_view()[i as int]));
                    assert(args.deep_view().take(i as int + 1) =~= args.deep_view().take(
                        i as int,
                    ).push(args.deep_view()[i as int]));
                }
                i = i + 1;
            }
            proof {
                assert(args.deep_view().take(args@.len() as int) =~= args.deep_view());
            }
            (String::from_str("fish"), wrapped)
        }
    }
}

} // verus!
