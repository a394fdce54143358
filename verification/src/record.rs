use vstd::prelude::*;

use crate::errors::Error;

verus! {

/// Lifecycle of a process record:
/// `Configuring -> Spawned -> Exited -> Removed`.
///
/// Configuration calls are accepted only in `Configuring`; exactly one spawn
/// moves the record to `Spawned`; the exit reaper alone drives the two final
/// transitions, releasing the pseudo-terminal on the way.
#[derive(Clone, Copy, Debug, PartialEq, Eq, Structural)]
pub enum Lifecycle {
    Configuring,
    Spawned,
    Exited,
    Removed,
}

/// One requested privileged execution: its owner, its pending child
/// configuration, its pseudo-terminal and its lifecycle state.
///
/// Every call against a record is ownership-checked: it must come from the
/// caller identity that created the record.
pub struct ProcessRecord {
    /// Unique, monotonically increasing id; opaque to callers.
    pub id: u64,
    /// The caller identity that created this record.
    pub owner: String,
    /// The command to run; never empty, first element is the executable.
    pub command: Vec<String>,
    /// Pending environment entries, in the order they were set; a later
    /// entry for the same variable overrides an earlier one.
    pub environment: Vec<(String, String)>,
    /// Pending working-directory override, if any.
    pub working_directory: Option<String>,
    /// Whether the creator asked for an interactive session. Kept for
    /// protocol symmetry; it selects how many descriptors a spawn reply
    /// carries, nothing else on the daemon side.
    pub interactive: bool,
    /// Lifecycle state.
    pub state: Lifecycle,
    /// Whether the daemon still holds the pseudo-terminal open. The
    /// terminal is held from creation on and released exactly once, at
    /// exit-detection time.
    pub pty_open: bool,
    /// Whether a non-blocking check has already seen the child exit.
    pub child_exited: bool,
}

/// A snapshot of the child configuration, handed out when a spawn has been
/// approved so the launch can be performed outside.
pub struct SpawnConfig {
    pub argv: Vec<String>,
    pub environment: Vec<(String, String)>,
    pub working_directory: Option<String>,
    pub interactive: bool,
}

impl ProcessRecord {
    /// A record still addressable by callers: not yet reclaimed.
    pub open spec fn live(self) -> bool {
        self.state == Lifecycle::Configuring || self.state == Lifecycle::Spawned
    }

    /// Well-formedness: the command is non-empty, an unspawned record has no
    /// exited child, and the pseudo-terminal is open exactly until the
    /// record is reclaimed.
    pub open spec fn wf(self) -> bool {
        &&& self.command.len() > 0
        &&& self.state == Lifecycle::Configuring ==> !self.child_exited
        &&& self.live() ==> self.pty_open
        &&& self.state == Lifecycle::Removed ==> !self.pty_open
    }

    /// Ownership binding: does a request from `caller` own this record?
    pub open spec fn owned_by(self, caller: Seq<char>) -> bool {
        self.owner@ == caller
    }

    /// Ready for the reaper: spawned, and the child has been seen to exit.
    pub open spec fn reapable(self) -> bool {
        self.state == Lifecycle::Spawned && self.child_exited
    }

    /// The reaper's non-blocking question: has this record's child exited,
    /// so that the record must now be reclaimed?
    pub fn check_exited(&self) -> (b: bool)
        ensures
            b == self.reapable(),
    {
        self.state == Lifecycle::Spawned && self.child_exited
    }

    /// The record's configuration fields, unchanged from `other`.
    pub open spec fn same_config(self, other: ProcessRecord) -> bool {
        &&& self.id == other.id
        &&& self.owner == other.owner
        &&& self.command == other.command
        &&& self.environment == other.environment
        &&& self.working_directory == other.working_directory
        &&& self.interactive == other.interactive
    }

    /// Create a record for `owner`, ready to be configured.
    ///
    /// The caller must already have passed the authorization gate, and the
    /// pseudo-terminal must already have been allocated: a record exists
    /// only with its terminal.
    pub fn new(id: u64, owner: String, command: Vec<String>, interactive: bool) -> (r:
        ProcessRecord)
        requires
            command.len() > 0,
        ensures
            r.wf(),
            r.id == id,
            r.owner == owner,
            r.command == command,
            r.environment@ == Seq::<(String, String)>::empty(),
            r.working_directory is None,
            r.interactive == interactive,
            r.state == Lifecycle::Configuring,
            r.pty_open,
            !r.child_exited,
    {
        ProcessRecord {
            id,
            owner,
            command,
            environment: Vec::new(),
            working_directory: None,
            interactive,
            state: Lifecycle::Configuring,
            pty_open: true,
            child_exited: false,
        }
    }

    /// Does the request come from the record's owner?
    pub fn check_caller(&self, caller: &String) -> (r: bool)
        ensures
            r == self.owned_by(caller@),
    {
        self.owner == *caller
    }

    /// Merge entries into the pending child environment.
    ///
    /// Fails with `AccessDenied` for any caller but the owner, and with
    /// `AlreadyRunning` once the record has been spawned; in either case
    /// the record is unchanged, so a spawned child's environment can never
    /// be mutated afterwards.
    pub fn set_environment(&mut self, caller: &String, environ: Vec<(String, String)>) -> (r:
        Result<(), Error>)
        requires
            old(self).wf(),
            old(self).live(),
        ensures
            final(self).wf(),
            !old(self).owned_by(caller@) ==> r == Err::<(), Error>(Error::AccessDenied)
                && *final(self) == *old(self),
            old(self).owned_by(caller@) && old(self).state == Lifecycle::Spawned ==> r == Err::<
                (),
                Error,
            >(Error::AlreadyRunning) && *final(self) == *old(self),
            old(self).owned_by(caller@) && old(self).state == Lifecycle::Configuring ==> {
                &&& r == Ok::<(), Error>(())
                &&& final(self).environment@ == old(self).environment@ + environ@
                &&& final(self).id == old(self).id
                &&& final(self).owner == old(self).owner
                &&& final(self).command == old(self).command
                &&& final(self).working_directory == old(self).working_directory
                &&& final(self).interactive == old(self).interactive
                &&& final(self).state == old(self).state
                &&& final(self).pty_open == old(self).pty_open
                &&& final(self).child_exited == old(self).child_exited
            },
    {
        if !self.check_caller(caller) {
            return Err(Error::AccessDenied);
        }
        if self.state == Lifecycle::Spawned {
            return Err(Error::AlreadyRunning);
        }
        let mut environ = environ;
        self.environment.append(&mut environ);
        Ok(())
    }

    /// Set the pending working-directory override.
    ///
    /// Gated exactly as `set_environment`: owner only, before spawn only.
    pub fn set_directory(&mut self, caller: &String, path: String) -> (r: Result<(), Error>)
        requires
            old(self).wf(),
            old(self).live(),
        ensures
            final(self).wf(),
            !old(self).owned_by(caller@) ==> r == Err::<(), Error>(Error::AccessDenied)
                && *final(self) == *old(self),
            old(self).owned_by(caller@) && old(self).state == Lifecycle::Spawned ==> r == Err::<
                (),
                Error,
            >(Error::AlreadyRunning) && *final(self) == *old(self),
            old(self).owned_by(caller@) && old(self).state == Lifecycle::Configuring ==> {
                &&& r == Ok::<(), Error>(())
                &&& final(self).working_directory == Some(path)
                &&& final(self).id == old(self).id
                &&& final(self).owner == old(self).owner
                &&& final(self).command == old(self).command
                &&& final(self).environment == old(self).environment
                &&& final(self).interactive == old(self).interactive
                &&& final(self).state == old(self).state
                &&& final(self).pty_open == old(self).pty_open
                &&& final(self).child_exited == old(self).child_exited
            },
    {
        if !self.check_caller(caller) {
            return Err(Error::AccessDenied);
        }
        if self.state == Lifecycle::Spawned {
            return Err(Error::AlreadyRunning);
        }
        self.working_directory = Some(path);
        Ok(())
    }

    /// Approve a spawn and hand out the child configuration to launch.
    ///
    /// Fails with `AccessDenied` for any caller but the owner, regardless of
    /// state, and with `AlreadyRunning` if a spawn has already succeeded:
    /// exactly one spawn is permitted per record, so a second child can
    /// never be launched. On success the returned snapshot equals the
    /// pending configuration; the record itself is not yet changed - the
    /// launch happens outside and its outcome comes back via
    /// `spawn_commit`.
    pub fn spawn_precheck(&self, caller: &String) -> (r: Result<SpawnConfig, Error>)
        requires
            self.wf(),
            self.live(),
        ensures
            !self.owned_by(caller@) ==> r is Err && r->Err_0 == Error::AccessDenied,
            self.owned_by(caller@) && self.state == Lifecycle::Spawned ==> r is Err && r->Err_0
                == Error::AlreadyRunning,
            self.owned_by(caller@) && self.state == Lifecycle::Configuring ==> {
                &&& r is Ok
                &&& r->Ok_0.argv@.len() == self.command@.len()
                &&& forall|i: int|
                    0 <= i < self.command@.len() ==> #[trigger] r->Ok_0.argv@[i]@
                        == self.command@[i]@
                &&& r->Ok_0.environment@.len() == self.environment@.len()
                &&& forall|i: int|
                    0 <= i < self.environment@.len() ==> #[trigger] r->Ok_0.environment@[i].0@
                        == self.environment@[i].0@ && r->Ok_0.environment@[i].1@
                        == self.environment@[i].1@
                &&& match self.working_directory {
                    Some(p) => r->Ok_0.working_directory matches Some(q) && q@ == p@,
                    None => r->Ok_0.working_directory is None,
                }
                &&& r->Ok_0.interactive == self.interactive
            },
    {
        if !self.check_caller(caller) {
            return Err(Error::AccessDenied);
        }
        if self.state == Lifecycle::Spawned {
            return Err(Error::AlreadyRunning);
        }
        let working_directory = match &self.working_directory {
            Some(p) => Some(p.clone()),
            None => None,
        };
        Ok(SpawnConfig {
            argv: clone_strings(&self.command),
            environment: clone_env(&self.environment),
            working_directory,
            interactive: self.interactive,
        })
    }

    /// Record the outcome of an approved launch.
    ///
    /// A successful launch moves the record to `Spawned`; a failed one
    /// surfaces `SpawnFailed` and leaves the record configurable, so the
    /// caller may retry. The same gates as in `spawn_precheck` apply again,
    /// so a commit can never spawn a record twice.
    pub fn spawn_commit(&mut self, caller: &String, launched: bool) -> (r: Result<(), Error>)
        requires
            old(self).wf(),
            old(self).live(),
        ensures
            final(self).wf(),
            !old(self).owned_by(caller@) ==> r == Err::<(), Error>(Error::AccessDenied)
                && *final(self) == *old(self),
            old(self).owned_by(caller@) && old(self).state == Lifecycle::Spawned ==> r == Err::<
                (),
                Error,
            >(Error::AlreadyRunning) && *final(self) == *old(self),
            old(self).owned_by(caller@) && old(self).state == Lifecycle::Configuring
                && !launched ==> r == Err::<(), Error>(Error::SpawnFailed) && *final(self) == *old(
                self,
            ),
            old(self).owned_by(caller@) && old(self).state == Lifecycle::Configuring
                && launched ==> {
                &&& r == Ok::<(), Error>(())
                &&& final(self).state == Lifecycle::Spawned
                &&& final(self).same_config(*old(self))
                &&& final(self).pty_open == old(self).pty_open
                &&& final(self).child_exited == old(self).child_exited
            },
    {
        if !self.check_caller(caller) {
            return Err(Error::AccessDenied);
        }
        if self.state == Lifecycle::Spawned {
            return Err(Error::AlreadyRunning);
        }
        if !launched {
            return Err(Error::SpawnFailed);
        }
        self.state = Lifecycle::Spawned;
        Ok(())
    }

    /// Decide what a `signal(signum)` request may do.
    ///
    /// Owner only, regardless of state. Before spawn there is no child to
    /// signal, so the call is malformed; after the child has exited the
    /// call is a no-op (`Ok(None)`); while the child runs, `Ok(Some(n))`
    /// instructs the transport to forward signal `n` to the child.
    pub fn signal(&self, caller: &String, signum: i32) -> (r: Result<Option<i32>, Error>)
        requires
            self.wf(),
            self.live(),
        ensures
            !self.owned_by(caller@) ==> r == Err::<Option<i32>, Error>(Error::AccessDenied),
            self.owned_by(caller@) && self.state == Lifecycle::Configuring ==> r == Err::<
                Option<i32>,
                Error,
            >(Error::InvalidArgs),
            self.owned_by(caller@) && self.state == Lifecycle::Spawned && self.child_exited ==> r
                == Ok::<Option<i32>, Error>(None),
            self.owned_by(caller@) && self.state == Lifecycle::Spawned && !self.child_exited ==> r
                == Ok::<Option<i32>, Error>(Some(signum)),
    {
        if !self.check_caller(caller) {
            return Err(Error::AccessDenied);
        }
        if self.state == Lifecycle::Configuring {
            return Err(Error::InvalidArgs);
        }
        if self.child_exited {
            Ok(None)
        } else {
            Ok(Some(signum))
        }
    }

    /// Window-size propagation, declared but deliberately unimplemented.
    ///
    /// The ownership gate still applies; an owner always receives
    /// `NotImplemented` and must tolerate it.
    pub fn resize(&self, caller: &String) -> (r: Result<String, Error>)
        ensures
            !self.owned_by(caller@) ==> r == Err::<String, Error>(Error::AccessDenied),
            self.owned_by(caller@) ==> r == Err::<String, Error>(Error::NotImplemented),
    {
        if !self.check_caller(caller) {
            return Err(Error::AccessDenied);
        }
        Err(Error::NotImplemented)
    }

    /// Note that a non-blocking check saw the child exit.
    ///
    /// Exit detection is asynchronous and never client-facing: this is the
    /// reaper's event, and it is meaningful only on a spawned record.
    pub fn mark_child_exited(&mut self)
        requires
            old(self).wf(),
            old(self).state == Lifecycle::Spawned,
        ensures
            final(self).wf(),
            final(self).child_exited,
            final(self).state == old(self).state,
            final(self).same_config(*old(self)),
            final(self).pty_open == old(self).pty_open,
    {
        self.child_exited = true;
    }

    /// Release the pseudo-terminal, exactly once.
    ///
    /// Returns whether the underlying descriptor pair must now be closed:
    /// true the first time, false on any later call. Dropping the handle
    /// alone does not release the OS resource, so the one `true` answer is
    /// the single point where the close must happen.
    pub fn release_pty(&mut self) -> (closed: bool)
        ensures
            closed == old(self).pty_open,
            !final(self).pty_open,
            final(self).same_config(*old(self)),
            final(self).state == old(self).state,
            final(self).child_exited == old(self).child_exited,
    {
        let was_open = self.pty_open;
        self.pty_open = false;
        was_open
    }

    /// Reclaim a record whose child has exited:
    /// `Spawned -> Exited -> Removed`, releasing the pseudo-terminal on the
    /// way. Returns whether the terminal still had to be closed (always
    /// true from a well-formed spawned record).
    pub fn retire(&mut self) -> (closed: bool)
        requires
            old(self).wf(),
            old(self).state == Lifecycle::Spawned,
            old(self).child_exited,
        ensures
            final(self).wf(),
            closed == old(self).pty_open,
            closed,
            final(self).state == Lifecycle::Removed,
            !final(self).pty_open,
            final(self).same_config(*old(self)),
    {
        self.state = Lifecycle::Exited;
        let closed = self.release_pty();
        self.state = Lifecycle::Removed;
        closed
    }
}

/// The value the pending environment gives a variable: the last entry
/// with that name wins, since a later `set-environment` call merges over
/// an earlier one.
pub open spec fn env_value(entries: Seq<(String, String)>, name: Seq<char>) -> Option<Seq<char>>
    decreases entries.len(),
{
    if entries.len() == 0 {
        None
    } else if entries.last().0@ == name {
        Some(entries.last().1@)
    } else {
        env_value(entries.drop_last(), name)
    }
}

/// Law: merging entries into the pending environment - the append that
/// `set_environment` performs - makes the merged entries' binding of a
/// variable win, and leaves every variable they do not name bound as it
/// was.
pub proof fn lemma_env_merge_overrides(
    pre: Seq<(String, String)>,
    merged: Seq<(String, String)>,
    name: Seq<char>,
)
    ensures
        env_value(merged, name) is Some ==> env_value(pre + merged, name) == env_value(
            merged,
            name,
        ),
        env_value(merged, name) is None ==> env_value(pre + merged, name) == env_value(pre, name),
    decreases merged.len(),
{
    if merged.len() == 0 {
        assert(pre + merged =~= pre);
    } else {
        assert((pre + merged).last() == merged.last());
        if merged.last().0@ == name {
        } else {
            assert((pre + merged).drop_last() =~= pre + merged.drop_last());
            lemma_env_merge_overrides(pre, merged.drop_last(), name);
        }
    }
}

/// Clone a vector of strings, element for element.
fn clone_strings(v: &Vec<String>) -> (r: Vec<String>)
    ensures
        r@.len() == v@.len(),
        forall|i: int| 0 <= i < v@.len() ==> #[trigger] r@[i]@ == v@[i]@,
{
    let mut r: Vec<String> = Vec::new();
    let mut i: usize = 0;
    while i < v.len()
        invariant
            i <= v.len(),
            r@.len() == i,
            forall|j: int| 0 <= j < i ==> #[trigger] r@[j]@ == v@[j]@,
        decreases v.len() - i,
    {
        r.push(v[i].clone());
        i += 1;
    }
    r
}

/// Clone a vector of environment entries, element for element.
fn clone_env(v: &Vec<(String, String)>) -> (r: Vec<(String, String)>)
    ensures
        r@.len() == v@.len(),
        forall|i: int|
            0 <= i < v@.len() ==> #[trigger] r@[i].0@ == v@[i].0@ && r@[i].1@ == v@[i].1@,
{
    let mut r: Vec<(String, String)> = Vec::new();
    let mut i: usize = 0;
    while i < v.len()
        invariant
            i <= v.len(),
            r@.len() == i,
            forall|j: int|
                0 <= j < i ==> #[trigger] r@[j].0@ == v@[j].0@ && r@[j].1@ == v@[j].1@,
        decreases v.len() - i,
    {
        let entry = &v[i];
        r.push((entry.0.clone(), entry.1.clone()));
        i += 1;
    }
    r
}

} // verus!
