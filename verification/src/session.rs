use vstd::prelude::*;

use crate::errors::Error;

verus! {

/// The interrupt signal number the non-interactive session forwards to the
/// remote record whenever the local process receives an interrupt.
pub const SIGINT: i32 = 2;

/// The two mutually exclusive I/O modes of a client session.
#[derive(Clone, Copy, Debug, PartialEq, Eq, Structural)]
pub enum IoMode {
    /// One pseudo-terminal descriptor, relayed bidirectionally in raw mode.
    Interactive,
    /// Three pipe descriptors - the child's stdin, stdout and stderr -
    /// relayed concurrently, with interrupt signals forwarded.
    Pipes,
}

/// Assemble the argv handed to the broker: the program first, then its
/// arguments in order.
pub fn build_argv(program: String, args: Vec<String>) -> (argv: Vec<String>)
    ensures
        argv@.len() == args@.len() + 1,
        argv@[0] == program,
        forall|i: int| 0 <= i < args@.len() ==> #[trigger] argv@[i + 1]@ == args@[i]@,
{
    let mut argv: Vec<String> = Vec::new();
    argv.push(program);
    let mut i: usize = 0;
    while i < args.len()
        invariant
            i <= args@.len(),
            argv@.len() == i + 1,
            argv@[0] == program,
            forall|j: int| 0 <= j < i ==> #[trigger] argv@[j + 1]@ == args@[j]@,
        decreases args@.len() - i,
    {
        argv.push(args[i].clone());
        i += 1;
    }
    argv
}

/// Check the descriptors a spawn reply carries against the session's mode.
///
/// An interactive session expects exactly one descriptor, and it must be
/// terminal-backed - anything else is a protocol violation the client
/// fails loudly on, not a recoverable condition. A non-interactive session
/// expects exactly three descriptors: the child's stdin, stdout and
/// stderr, in that order.
pub fn classify_attachment(interactive: bool, descriptor_count: usize, first_is_terminal: bool)
    -> (r: Result<IoMode, Error>)
    ensures
        interactive && descriptor_count == 1 && first_is_terminal ==> r == Ok::<IoMode, Error>(
            IoMode::Interactive,
        ),
        interactive && !(descriptor_count == 1 && first_is_terminal) ==> r == Err::<
            IoMode,
            Error,
        >(Error::InvalidArgs),
        !interactive && descriptor_count == 3 ==> r == Ok::<IoMode, Error>(IoMode::Pipes),
        !interactive && descriptor_count != 3 ==> r == Err::<IoMode, Error>(Error::InvalidArgs),
    {
    if interactive {
        if descriptor_count == 1 && first_is_terminal {
            Ok(IoMode::Interactive)
        } else {
            Err(Error::InvalidArgs)
        }
    } else {
        if descriptor_count == 3 {
            Ok(IoMode::Pipes)
        } else {
            Err(Error::InvalidArgs)
        }
    }
}

/// The terminal-mode guard's state.
#[derive(Clone, Copy, Debug, PartialEq, Eq, Structural)]
pub enum GuardState {
    /// The local terminal was never switched to raw mode.
    Untouched,
    /// The local terminal is in raw mode and its original mode is saved.
    Raw,
    /// The saved mode has been written back.
    Restored,
}

/// Raw-mode discipline of the interactive session, as a scoped
/// acquisition: raw mode is entered once, before the relay, and the
/// original terminal mode is restored on every exit path - exactly once,
/// however often the relay's unwinding asks.
///
/// The guard only decides; reading and writing the real terminal
/// attributes happens outside, exactly when a transition here says so.
pub struct TerminalGuard {
    /// Where the guarded terminal stands.
    pub state: GuardState,
}

impl TerminalGuard {
    /// What a release does: from `Raw` it restores - exactly this one
    /// transition answers true - and from any other state it is a no-op.
    pub open spec fn spec_release(self) -> (TerminalGuard, bool) {
        if self.state == GuardState::Raw {
            (TerminalGuard { state: GuardState::Restored }, true)
        } else {
            (self, false)
        }
    }

    /// Start a session over the local terminal. Raw mode is entered - and
    /// the current mode must first be saved - exactly when both standard
    /// input and standard output are terminal-backed; the returned flag
    /// says so.
    pub fn acquire(stdin_is_terminal: bool, stdout_is_terminal: bool) -> (r: (TerminalGuard, bool))
        ensures
            r.1 == (stdin_is_terminal && stdout_is_terminal),
            r.0.state == if r.1 {
                GuardState::Raw
            } else {
                GuardState::Untouched
            },
    {
        if stdin_is_terminal && stdout_is_terminal {
            (TerminalGuard { state: GuardState::Raw }, true)
        } else {
            (TerminalGuard { state: GuardState::Untouched }, false)
        }
    }

    /// End of a relay path, successful or not: answers whether the saved
    /// terminal mode must now be written back. True at most once over the
    /// guard's lifetime.
    pub fn release(&mut self) -> (restore: bool)
        ensures
            (*final(self), restore) == old(self).spec_release(),
            restore ==> old(self).state == GuardState::Raw,
    {
        if self.state == GuardState::Raw {
            self.state = GuardState::Restored;
            true
        } else {
            false
        }
    }
}

/// How many of `n` successive releases of `g` restore the terminal.
pub open spec fn restore_count(g: TerminalGuard, n: nat) -> nat
    decreases n,
{
    if n == 0 {
        0
    } else {
        (if g.spec_release().1 {
            1nat
        } else {
            0nat
        }) + restore_count(g.spec_release().0, (n - 1) as nat)
    }
}

/// Law: however a relay ends, and however often its exit paths release
/// the guard, the original terminal mode is written back at most once -
/// there is no residual raw mode and no double restore. If the guard
/// actually entered raw mode, the first release restores it, so the mode
/// is written back exactly once.
pub proof fn lemma_restored_exactly_once(g: TerminalGuard, n: nat)
    ensures
        restore_count(g, n) <= 1,
        g.state == GuardState::Raw && n >= 1 ==> restore_count(g, n) == 1,
    decreases n,
{
    if n > 0 {
        lemma_restored_exactly_once(g.spec_release().0, (n - 1) as nat);
        if g.state == GuardState::Raw {
            lemma_never_restored_after(g.spec_release().0, (n - 1) as nat);
        }
    }
}

/// A guard that is not in raw mode never restores, however often it is
/// released.
proof fn lemma_never_restored_after(g: TerminalGuard, n: nat)
    requires
        g.state != GuardState::Raw,
    ensures
        restore_count(g, n) == 0,
    decreases n,
{
    if n > 0 {
        lemma_never_restored_after(g.spec_release().0, (n - 1) as nat);
    }
}

} // verus!
