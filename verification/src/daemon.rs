use vstd::prelude::*;
use vstd::string::StringExecFns;

use crate::errors::Error;
use crate::gate::{gate_decision, AuthorityOutcome};
use crate::record::{Lifecycle, ProcessRecord, SpawnConfig};

verus! {

/// The daemon's state: the id counter, the registry of live record ids and
/// the published process records, in creation order.
///
/// The registry and the published records mirror each other exactly - an id
/// stands in the registry if and only if a live record with that id is
/// published - and every operation here preserves that invariant
/// atomically.
pub struct Daemon {
    /// The id the next created record receives; starts at 1, increments
    /// per creation, never reused.
    pub next_id: u64,
    /// The ordered registry of live record ids.
    pub registry: Vec<u64>,
    /// The published records, parallel to `registry`.
    pub records: Vec<ProcessRecord>,
}

impl Daemon {
    /// Well-formedness: the registry mirrors the published records entry
    /// for entry, every published record is live and well-formed, and ids
    /// increase strictly with creation order, all below the counter.
    pub open spec fn wf(self) -> bool {
        &&& self.next_id >= 1
        &&& self.registry@.len() == self.records@.len()
        &&& forall|i: int|
            0 <= i < self.records@.len() ==> (#[trigger] self.records@[i]).wf()
                && self.records@[i].live() && 1 <= self.records@[i].id < self.next_id
                && self.registry@[i] == self.records@[i].id
        &&& forall|i: int, j: int|
            0 <= i < j < self.records@.len() ==> (#[trigger] self.records@[i]).id < (
            #[trigger] self.records@[j]).id
    }

    /// Is a record with this id published?
    pub open spec fn has_record(self, id: u64) -> bool {
        exists|i: int| 0 <= i < self.records@.len() && (#[trigger] self.records@[i]).id == id
    }

    /// The position of the record with this id (meaningful under
    /// `has_record`; unique under `wf`).
    pub open spec fn index_of(self, id: u64) -> int {
        choose|i: int| 0 <= i < self.records@.len() && (#[trigger] self.records@[i]).id == id
    }

    /// The published record with this id.
    pub open spec fn record_of(self, id: u64) -> ProcessRecord {
        self.records@[self.index_of(id)]
    }

    /// Everything except the record at `idx` is unchanged from `pre`.
    pub open spec fn same_except(self, pre: Daemon, idx: int) -> bool {
        &&& self.next_id == pre.next_id
        &&& self.registry == pre.registry
        &&& self.records@.len() == pre.records@.len()
        &&& forall|j: int|
            0 <= j < pre.records@.len() && j != idx ==> self.records@[j] == pre.records@[j]
    }

    /// A fresh daemon: no records, counter at 1.
    pub fn new() -> (d: Daemon)
        ensures
            d.wf(),
            d.next_id == 1,
            d.registry@.len() == 0,
            d.records@.len() == 0,
    {
        Daemon { next_id: 1, registry: Vec::new(), records: Vec::new() }
    }

    /// Find the position of the published record with this id.
    pub fn find_index(&self, id: u64) -> (r: Option<usize>)
        requires
            self.wf(),
        ensures
            match r {
                Some(i) => self.has_record(id) && i < self.records@.len()
                    && self.records@[i as int].id == id && self.index_of(id) == i,
                None => !self.has_record(id),
            },
    {
        let mut i: usize = 0;
        while i < self.records.len()
            invariant
                self.wf(),
                i <= self.records@.len(),
                forall|j: int| 0 <= j < i ==> (#[trigger] self.records@[j]).id != id,
            decreases self.records@.len() - i,
        {
            if self.records[i].id == id {
                proof {
                    let w = self.index_of(id);
                    if w != i {
                        assert(self.records@[w].id == self.records@[i as int].id);
                        if w < i {
                            assert(self.records@[w].id < self.records@[i as int].id);
                        } else {
                            assert(self.records@[i as int].id < self.records@[w].id);
                        }
                    }
                }
                return Some(i);
            }
            i += 1;
        }
        None
    }

    /// Validate a creation request before anything else happens.
    ///
    /// Checked in this fixed order, before the policy authority is ever
    /// consulted: the transport must name a sender, the command must be
    /// non-empty, and the target account must be the single supported
    /// privileged account, `root`. An unauthorized caller can therefore
    /// probe for malformed-argument errors, but a request that fails
    /// validation never reaches the authority.
    pub fn validate_create(caller: &Option<String>, user: &String, argv: &Vec<String>) -> (r:
        Result<(), Error>)
        ensures
            caller is None ==> r == Err::<(), Error>(Error::AccessDenied),
            caller is Some && argv@.len() == 0 ==> r == Err::<(), Error>(Error::InvalidArgs),
            caller is Some && argv@.len() > 0 && user@ != "root"@ ==> r == Err::<(), Error>(
                Error::UnsupportedUser,
            ),
            caller is Some && argv@.len() > 0 && user@ == "root"@ ==> r == Ok::<(), Error>(()),
    {
        if caller.is_none() {
            return Err(Error::AccessDenied);
        }
        if argv.len() == 0 {
            return Err(Error::InvalidArgs);
        }
        let root: String = "root".to_owned();
        if *user != root {
            return Err(Error::UnsupportedUser);
        }
        Ok(())
    }

    /// The broker entry point: create and publish a process record.
    ///
    /// `caller` is the transport-level sender of the request, `auth` the
    /// policy authority's answer for that caller, and `pty_allocated`
    /// whether the operating system granted a pseudo-terminal pair.
    /// Validation comes first, in `validate_create`'s order; only then the
    /// authorization gate, and only for an authorized caller the terminal
    /// allocation. On any failure the daemon is unchanged: an unauthorized
    /// caller observes nothing but `AccessDenied`, and in particular never
    /// consumes an id. On success the new record's id is returned; it is
    /// appended to the registry and published atomically, owned by
    /// `caller`, in state `Configuring`, with an empty pending environment
    /// and no directory override.
    pub fn create(
        &mut self,
        caller: Option<String>,
        user: &String,
        argv: Vec<String>,
        interactive: bool,
        auth: AuthorityOutcome,
        pty_allocated: bool,
    ) -> (r: Result<u64, Error>)
        requires
            old(self).wf(),
            old(self).next_id < u64::MAX,
        ensures
            final(self).wf(),
            r is Err ==> *final(self) == *old(self),
            caller is None ==> r == Err::<u64, Error>(Error::AccessDenied),
            caller is Some && argv@.len() == 0 ==> r == Err::<u64, Error>(Error::InvalidArgs),
            caller is Some && argv@.len() > 0 && user@ != "root"@ ==> r == Err::<u64, Error>(
                Error::UnsupportedUser,
            ),
            caller is Some && argv@.len() > 0 && user@ == "root"@ && auth
                != AuthorityOutcome::Allowed ==> r == Err::<u64, Error>(Error::AccessDenied),
            caller is Some && argv@.len() > 0 && user@ == "root"@ && auth
                == AuthorityOutcome::Allowed && !pty_allocated ==> r == Err::<u64, Error>(
                Error::SpawnFailed,
            ),
            caller is Some && argv@.len() > 0 && user@ == "root"@ && auth
                == AuthorityOutcome::Allowed && pty_allocated ==> {
                &&& r == Ok::<u64, Error>(old(self).next_id)
                &&& final(self).next_id == old(self).next_id + 1
                &&& final(self).registry@ == old(self).registry@.push(old(self).next_id)
                &&& final(self).records@.len() == old(self).records@.len() + 1
                &&& forall|j: int|
                    0 <= j < old(self).records@.len() ==> final(self).records@[j] == old(
                        self,
                    ).records@[j]
                &&& ({
                    let rec = final(self).records@.last();
                    &&& rec.id == old(self).next_id
                    &&& caller == Some(rec.owner)
                    &&& rec.command == argv
                    &&& rec.environment@.len() == 0
                    &&& rec.working_directory is None
                    &&& rec.interactive == interactive
                    &&& rec.state == Lifecycle::Configuring
                    &&& rec.pty_open
                    &&& !rec.child_exited
                })
            },
    {
        Self::validate_create(&caller, user, &argv)?;
        let caller = match caller {
            Some(c) => c,
            None => {
                return Err(Error::AccessDenied);
            },
        };
        gate_decision(auth)?;
        if !pty_allocated {
            return Err(Error::SpawnFailed);
        }
        let id = self.next_id;
        let record = ProcessRecord::new(id, caller, argv, interactive);
        self.registry.push(id);
        self.records.push(record);
        self.next_id = id + 1;
        Ok(id)
    }

    /// Route a `set-environment` request to the record at `id`.
    ///
    /// An unpublished id fails with `UnknownProcess`; otherwise the
    /// record's own gates decide - owner only, before spawn only - and no
    /// other record, nor the registry, is touched.
    pub fn set_environment(&mut self, caller: &String, id: u64, environ: Vec<(String, String)>)
        -> (r: Result<(), Error>)
        requires
            old(self).wf(),
        ensures
            final(self).wf(),
            !old(self).has_record(id) ==> r == Err::<(), Error>(Error::UnknownProcess) && *final(self) == *old(self),
            old(self).has_record(id) ==> ({
                let idx = old(self).index_of(id);
                let pre = old(self).records@[idx];
                let post = final(self).records@[idx];
                &&& final(self).same_except(*old(self), idx)
                &&& (!pre.owned_by(caller@) ==> r == Err::<(), Error>(Error::AccessDenied) && post
                    == pre)
                &&& (pre.owned_by(caller@) && pre.state == Lifecycle::Spawned ==> r == Err::<
                    (),
                    Error,
                >(Error::AlreadyRunning) && post == pre)
                &&& (pre.owned_by(caller@) && pre.state == Lifecycle::Configuring ==> {
                    &&& r == Ok::<(), Error>(())
                    &&& post.environment@ == pre.environment@ + environ@
                    &&& post.id == pre.id
                    &&& post.owner == pre.owner
                    &&& post.command == pre.command
                    &&& post.working_directory == pre.working_directory
                    &&& post.interactive == pre.interactive
                    &&& post.state == pre.state
                    &&& post.pty_open == pre.pty_open
                    &&& post.child_exited == pre.child_exited
                })
            }),
    {
        let idx = match self.find_index(id) {
            Some(i) => i,
            None => {
                return Err(Error::UnknownProcess);
            },
        };
        let rec = &mut self.records[idx];
        rec.set_environment(caller, environ)
    }

    /// Route a `set-directory` request to the record at `id`.
    ///
    /// Gated exactly as `set_environment`.
    pub fn set_directory(&mut self, caller: &String, id: u64, path: String) -> (r: Result<
        (),
        Error,
    >)
        requires
            old(self).wf(),
        ensures
            final(self).wf(),
            !old(self).has_record(id) ==> r == Err::<(), Error>(Error::UnknownProcess) && *final(self) == *old(self),
            old(self).has_record(id) ==> ({
                let idx = old(self).index_of(id);
                let pre = old(self).records@[idx];
                let post = final(self).records@[idx];
                &&& final(self).same_except(*old(self), idx)
                &&& (!pre.owned_by(caller@) ==> r == Err::<(), Error>(Error::AccessDenied) && post
                    == pre)
                &&& (pre.owned_by(caller@) && pre.state == Lifecycle::Spawned ==> r == Err::<
                    (),
                    Error,
                >(Error::AlreadyRunning) && post == pre)
                &&& (pre.owned_by(caller@) && pre.state == Lifecycle::Configuring ==> {
                    &&& r == Ok::<(), Error>(())
                    &&& post.working_directory == Some(path)
                    &&& post.id == pre.id
                    &&& post.owner == pre.owner
                    &&& post.command == pre.command
                    &&& post.environment == pre.environment
                    &&& post.interactive == pre.interactive
                    &&& post.state == pre.state
                    &&& post.pty_open == pre.pty_open
                    &&& post.child_exited == pre.child_exited
                })
            }),
    {
        let idx = match self.find_index(id) {
            Some(i) => i,
            None => {
                return Err(Error::UnknownProcess);
            },
        };
        let rec = &mut self.records[idx];
        rec.set_directory(caller, path)
    }

    /// Route a spawn approval to the record at `id`; see
    /// `ProcessRecord::spawn_precheck`. Nothing is changed yet.
    pub fn spawn_precheck(&self, caller: &String, id: u64) -> (r: Result<SpawnConfig, Error>)
        requires
            self.wf(),
        ensures
            !self.has_record(id) ==> r is Err && r->Err_0 == Error::UnknownProcess,
            self.has_record(id) ==> ({
                let pre = self.record_of(id);
                &&& (!pre.owned_by(caller@) ==> r is Err && r->Err_0 == Error::AccessDenied)
                &&& (pre.owned_by(caller@) && pre.state == Lifecycle::Spawned ==> r is Err
                    && r->Err_0 == Error::AlreadyRunning)
                &&& (pre.owned_by(caller@) && pre.state == Lifecycle::Configuring ==> {
                    &&& r is Ok
                    &&& r->Ok_0.argv@.len() == pre.command@.len()
                    &&& forall|i: int|
                        0 <= i < pre.command@.len() ==> #[trigger] r->Ok_0.argv@[i]@
                            == pre.command@[i]@
                    &&& r->Ok_0.environment@.len() == pre.environment@.len()
                    &&& forall|i: int|
                        0 <= i < pre.environment@.len() ==> #[trigger] r->Ok_0.environment@[i].0@
                            == pre.environment@[i].0@ && r->Ok_0.environment@[i].1@
                            == pre.environment@[i].1@
                    &&& match pre.working_directory {
                        Some(p) => r->Ok_0.working_directory matches Some(q) && q@ == p@,
                        None => r->Ok_0.working_directory is None,
                    }
                    &&& r->Ok_0.interactive == pre.interactive
                })
            }),
    {
        let idx = match self.find_index(id) {
            Some(i) => i,
            None => {
                return Err(Error::UnknownProcess);
            },
        };
        self.records[idx].spawn_precheck(caller)
    }

    /// Route the outcome of an approved launch to the record at `id`; see
    /// `ProcessRecord::spawn_commit`. No other record, nor the registry,
    /// is touched.
    pub fn spawn_commit(&mut self, caller: &String, id: u64, launched: bool) -> (r: Result<
        (),
        Error,
    >)
        requires
            old(self).wf(),
        ensures
            final(self).wf(),
            !old(self).has_record(id) ==> r == Err::<(), Error>(Error::UnknownProcess) && *final(self) == *old(self),
            old(self).has_record(id) ==> ({
                let idx = old(self).index_of(id);
                let pre = old(self).records@[idx];
                let post = final(self).records@[idx];
                &&& final(self).same_except(*old(self), idx)
                &&& (!pre.owned_by(caller@) ==> r == Err::<(), Error>(Error::AccessDenied) && post
                    == pre)
                &&& (pre.owned_by(caller@) && pre.state == Lifecycle::Spawned ==> r == Err::<
                    (),
                    Error,
                >(Error::AlreadyRunning) && post == pre)
                &&& (pre.owned_by(caller@) && pre.state == Lifecycle::Configuring && !launched
                    ==> r == Err::<(), Error>(Error::SpawnFailed) && post == pre)
                &&& (pre.owned_by(caller@) && pre.state == Lifecycle::Configuring && launched
                    ==> {
                    &&& r == Ok::<(), Error>(())
                    &&& post.state == Lifecycle::Spawned
                    &&& post.same_config(pre)
                    &&& post.pty_open == pre.pty_open
                    &&& post.child_exited == pre.child_exited
                })
            }),
    {
        let idx = match self.find_index(id) {
            Some(i) => i,
            None => {
                return Err(Error::UnknownProcess);
            },
        };
        let rec = &mut self.records[idx];
        rec.spawn_commit(caller, launched)
    }

    /// Route a `signal` request to the record at `id`; see
    /// `ProcessRecord::signal`. Nothing is changed.
    pub fn signal(&self, caller: &String, id: u64, signum: i32) -> (r: Result<Option<i32>, Error>)
        requires
            self.wf(),
        ensures
            !self.has_record(id) ==> r == Err::<Option<i32>, Error>(Error::UnknownProcess),
            self.has_record(id) ==> ({
                let pre = self.record_of(id);
                &&& (!pre.owned_by(caller@) ==> r == Err::<Option<i32>, Error>(
                    Error::AccessDenied,
                ))
                &&& (pre.owned_by(caller@) && pre.state == Lifecycle::Configuring ==> r == Err::<
                    Option<i32>,
                    Error,
                >(Error::InvalidArgs))
                &&& (pre.owned_by(caller@) && pre.state == Lifecycle::Spawned && pre.child_exited
                    ==> r == Ok::<Option<i32>, Error>(None))
                &&& (pre.owned_by(caller@) && pre.state == Lifecycle::Spawned && !pre.child_exited
                    ==> r == Ok::<Option<i32>, Error>(Some(signum)))
            }),
    {
        let idx = match self.find_index(id) {
            Some(i) => i,
            None => {
                return Err(Error::UnknownProcess);
            },
        };
        self.records[idx].signal(caller, signum)
    }

    /// Route a `resize` request to the record at `id`; see
    /// `ProcessRecord::resize`. Nothing is changed.
    pub fn resize(&self, caller: &String, id: u64) -> (r: Result<String, Error>)
        requires
            self.wf(),
        ensures
            !self.has_record(id) ==> r == Err::<String, Error>(Error::UnknownProcess),
            self.has_record(id) ==> ({
                let pre = self.record_of(id);
                &&& (!pre.owned_by(caller@) ==> r == Err::<String, Error>(Error::AccessDenied))
                &&& (pre.owned_by(caller@) ==> r == Err::<String, Error>(Error::NotImplemented))
            }),
    {
        let idx = match self.find_index(id) {
            Some(i) => i,
            None => {
                return Err(Error::UnknownProcess);
            },
        };
        self.records[idx].resize(caller)
    }

    /// Note that a non-blocking check saw the child of record `id` exit.
    ///
    /// The reaper's event: an unknown id or an unspawned record is left
    /// alone (the check can race with removal); a spawned record is marked
    /// so the next reaper cycle reclaims it.
    pub fn notify_child_exited(&mut self, id: u64)
        requires
            old(self).wf(),
        ensures
            final(self).wf(),
            !old(self).has_record(id) ==> *final(self) == *old(self),
            old(self).has_record(id) ==> ({
                let idx = old(self).index_of(id);
                let pre = old(self).records@[idx];
                let post = final(self).records@[idx];
                &&& final(self).same_except(*old(self), idx)
                &&& (pre.state == Lifecycle::Configuring ==> post == pre)
                &&& (pre.state == Lifecycle::Spawned ==> post.child_exited && post.same_config(pre)
                    && post.state == pre.state && post.pty_open == pre.pty_open)
            }),
    {
        let idx = match self.find_index(id) {
            Some(i) => i,
            None => {
                return;
            },
        };
        let rec = &mut self.records[idx];
        if rec.state == Lifecycle::Spawned {
            rec.mark_child_exited();
        }
    }

    /// The number of registered ids, as the reaper's scan snapshots it.
    pub fn registry_len(&self) -> (n: usize)
        ensures
            n == self.registry@.len(),
    {
        self.registry.len()
    }

    /// Re-read the id at a scan position, tolerating concurrent shrinkage:
    /// a position beyond the current length answers `None`.
    pub fn registry_get(&self, i: usize) -> (r: Option<u64>)
        ensures
            i < self.registry@.len() ==> r == Some(self.registry@[i as int]),
            i >= self.registry@.len() ==> r is None,
    {
        if i < self.registry.len() {
            Some(self.registry[i])
        } else {
            None
        }
    }

    /// Reclaim the record at position `idx`: retire it - releasing its
    /// pseudo-terminal - and remove it from the published records and from
    /// the registry in one step, returning its id.
    fn reap_at(&mut self, idx: usize) -> (id: u64)
        requires
            old(self).wf(),
            idx < old(self).records@.len(),
            old(self).records@[idx as int].reapable(),
        ensures
            final(self).wf(),
            final(self).next_id == old(self).next_id,
            id == old(self).records@[idx as int].id,
            final(self).records@ == old(self).records@.remove(idx as int),
            final(self).registry@ == old(self).registry@.remove(idx as int),
    {
        let rec = &mut self.records[idx];
        let _must_close = rec.retire();
        let _removed = self.records.remove(idx);
        let id = self.registry.remove(idx);
        proof {
            assert(self.records@ =~= old(self).records@.remove(idx as int));
            old(self).records@.remove_ensures(idx as int);
            old(self).registry@.remove_ensures(idx as int);
            assert(self.wf());
        }
        id
    }

    /// The reaper's scan: snapshot the registry length, then for each
    /// position re-read the id there, look its record up and ask it
    /// whether its child has exited. Answers the first position whose
    /// record must be reclaimed, or `None` when none must be.
    fn find_reapable(&self) -> (r: Option<usize>)
        requires
            self.wf(),
        ensures
            match r {
                Some(i) => i < self.records@.len() && self.records@[i as int].reapable()
                    && forall|j: int| 0 <= j < i ==> !(#[trigger] self.records@[j]).reapable(),
                None => forall|j: int|
                    0 <= j < self.records@.len() ==> !(#[trigger] self.records@[j]).reapable(),
            },
    {
        let len = self.registry_len();
        let mut idx: usize = 0;
        while idx < len
            invariant
                self.wf(),
                len == self.registry@.len(),
                idx <= len,
                forall|j: int| 0 <= j < idx ==> !(#[trigger] self.records@[j]).reapable(),
            decreases len - idx,
        {
            let id = self.registry_get(idx).unwrap();
            proof {
                assert(self.records@[idx as int].id == id);
                assert(self.has_record(id));
            }
            let rec_idx = self.find_index(id).unwrap();
            proof {
                lemma_id_unique(*self, rec_idx as int, idx as int);
            }
            if self.records[rec_idx].check_exited() {
                return Some(rec_idx);
            }
            idx += 1;
        }
        None
    }

    /// One reaper cycle over the registry.
    ///
    /// Scans the registry from the start; whenever a record's child has
    /// exited, reclaims it - releasing its pseudo-terminal and removing it
    /// from the published records and from the registry atomically - and
    /// restarts the scan from the beginning of the cycle, because the
    /// removal shifts every later index and continuing at the next one
    /// would skip an entry. The ids of the reclaimed records are returned
    /// in registry order, so the underlying terminals can be closed and
    /// the published objects dropped. Afterwards exactly the records whose
    /// children had not exited remain, unchanged and in their old order;
    /// every record whose child had exited is deregistered.
    pub fn reaper_cycle(&mut self) -> (reaped: Vec<u64>)
        requires
            old(self).wf(),
        ensures
            final(self).wf(),
            final(self).next_id == old(self).next_id,
            final(self).records@ == old(self).records@.filter(keep_pred()),
            reaped@.len() == old(self).records@.filter(reap_pred()).len(),
            forall|k: int|
                0 <= k < reaped@.len() ==> reaped@[k] == old(self).records@.filter(reap_pred())[
                    k
                ].id,
            forall|id: u64|
                old(self).has_record(id) && old(self).record_of(id).reapable() ==> !final(self).has_record(id),
            forall|id: u64|
                old(self).has_record(id) && !old(self).record_of(id).reapable() ==> final(self).has_record(id)
                    && final(self).record_of(id) == old(self).record_of(id),
    {
        let ghost pre = *self;
        let mut reaped: Vec<u64> = Vec::new();
        let ghost mut gone: Seq<ProcessRecord> = Seq::empty();
        let mut done = false;
        while !done
            invariant
                self.wf(),
                pre.wf(),
                self.next_id == pre.next_id,
                self.records@.filter(keep_pred()) == pre.records@.filter(keep_pred()),
                pre.records@.filter(reap_pred()) == gone + self.records@.filter(reap_pred()),
                reaped@.len() == gone.len(),
                forall|k: int| 0 <= k < gone.len() ==> reaped@[k] == gone[k].id,
                done ==> forall|j: int|
                    0 <= j < self.records@.len() ==> !(#[trigger] self.records@[j]).reapable(),
            decreases self.records@.len(), (if done { 0int } else { 1int }),
        {
            match self.find_reapable() {
                Some(idx) => {
                    let ghost cur = self.records@;
                    proof {
                        lemma_reap_first(cur, idx as int);
                    }
                    let id = self.reap_at(idx);
                    reaped.push(id);
                    proof {
                        gone = gone.push(cur[idx as int]);
                        assert(gone + self.records@.filter(reap_pred()) =~= gone.drop_last() + (
                        seq![cur[idx as int]] + self.records@.filter(reap_pred())));
                    }
                },
                None => {
                    done = true;
                },
            }
        }
        proof {
            lemma_filter_all_keep(self.records@);
            assert(pre.records@.filter(reap_pred()) =~= gone);
            assert forall|id: u64|
                pre.has_record(id) && pre.record_of(id).reapable() implies !self.has_record(
                id,
            ) by {
                let i = choose|i: int|
                    0 <= i < pre.records@.len() && (#[trigger] pre.records@[i]).id == id;
                lemma_index_at(pre, i);
                if self.has_record(id) {
                    let j = choose|j: int|
                        0 <= j < self.records@.len() && (#[trigger] self.records@[j]).id == id;
                    pre.records@.lemma_filter_pred(keep_pred(), j);
                    lemma_filter_subset(pre.records@, keep_pred());
                    let m = choose|m: int|
                        0 <= m < pre.records@.len() && pre.records@[m] == self.records@[j];
                    lemma_id_unique(pre, m, i);
                }
            }
            assert forall|id: u64|
                pre.has_record(id) && !pre.record_of(id).reapable() implies self.has_record(id)
                && self.record_of(id) == pre.record_of(id) by {
                let i = choose|i: int|
                    0 <= i < pre.records@.len() && (#[trigger] pre.records@[i]).id == id;
                lemma_index_at(pre, i);
                pre.records@.lemma_filter_contains(keep_pred(), i);
                let j = choose|j: int|
                    0 <= j < self.records@.len() && self.records@[j] == pre.records@[i];
                assert(self.records@[j].id == id);
                lemma_index_at(*self, j);
            }
        }
        reaped
    }
}

/// The decimal digits of `n`, most significant first.
pub open spec fn decimal_digits(n: nat) -> Seq<char>
    decreases n,
{
    if n < 10 {
        seq![digit_char(n)]
    } else {
        decimal_digits(n / 10).push(digit_char(n % 10))
    }
}

/// The character for one decimal digit.
pub open spec fn digit_char(d: nat) -> char {
    if d == 0 {
        '0'
    } else if d == 1 {
        '1'
    } else if d == 2 {
        '2'
    } else if d == 3 {
        '3'
    } else if d == 4 {
        '4'
    } else if d == 5 {
        '5'
    } else if d == 6 {
        '6'
    } else if d == 7 {
        '7'
    } else if d == 8 {
        '8'
    } else {
        '9'
    }
}

/// The bus path a record is published at, derived deterministically from
/// its id. Callers treat it as opaque.
pub open spec fn object_path_spec(id: u64) -> Seq<char> {
    "/de/ytvwld/Ele/"@ + decimal_digits(id as nat)
}

/// The string for one decimal digit.
fn digit_str(d: u64) -> (s: &'static str)
    requires
        d < 10,
    ensures
        s@ == seq![digit_char(d as nat)],
{
    proof {
        reveal_strlit("0");
        reveal_strlit("1");
        reveal_strlit("2");
        reveal_strlit("3");
        reveal_strlit("4");
        reveal_strlit("5");
        reveal_strlit("6");
        reveal_strlit("7");
        reveal_strlit("8");
        reveal_strlit("9");
    }
    let s = if d == 0 {
        "0"
    } else if d == 1 {
        "1"
    } else if d == 2 {
        "2"
    } else if d == 3 {
        "3"
    } else if d == 4 {
        "4"
    } else if d == 5 {
        "5"
    } else if d == 6 {
        "6"
    } else if d == 7 {
        "7"
    } else if d == 8 {
        "8"
    } else {
        "9"
    };
    proof {
        assert(s@ =~= seq![digit_char(d as nat)]);
    }
    s
}

/// Append the decimal digits of `n`.
fn push_decimal(s: &mut String, n: u64)
    ensures
        final(s)@ == old(s)@ + decimal_digits(n as nat),
    decreases n,
{
    if n < 10 {
        s.append(digit_str(n));
        proof {
            assert(final(s)@ =~= old(s)@ + decimal_digits(n as nat));
        }
    } else {
        push_decimal(s, n / 10);
        s.append(digit_str(n % 10));
        proof {
            assert((n / 10) as nat == (n as nat) / 10);
            assert((n % 10) as nat == (n as nat) % 10);
            assert(final(s)@ =~= old(s)@ + decimal_digits(n as nat));
        }
    }
}

/// Derive the publication path for a record id.
pub fn object_path(id: u64) -> (s: String)
    ensures
        s@ == object_path_spec(id),
{
    let mut s: String = "/de/ytvwld/Ele/".to_owned();
    push_decimal(&mut s, id);
    s
}

/// Law: while the daemon is well-formed, an id stands in the registry if
/// and only if a published record carries it, and every published record
/// is live - no id is ever registered without its record, or the other
/// way round. Creation, configuration, spawning and reaping all preserve
/// well-formedness, so this holds continuously.
pub proof fn lemma_registry_matches_published(d: Daemon)
    requires
        d.wf(),
    ensures
        forall|id: u64| #[trigger] d.registry@.contains(id) <==> d.has_record(id),
        forall|id: u64| #[trigger] d.has_record(id) ==> d.record_of(id).live(),
{
    assert forall|id: u64| #[trigger] d.registry@.contains(id) implies d.has_record(id) by {
        let w = choose|w: int| 0 <= w < d.registry@.len() && d.registry@[w] == id;
        assert(d.records@[w].id == id);
    }
    assert forall|id: u64| d.has_record(id) implies #[trigger] d.registry@.contains(id) by {
        let w = choose|w: int|
            0 <= w < d.records@.len() && (#[trigger] d.records@[w]).id == id;
        assert(d.registry@[w] == id);
    }
    assert forall|id: u64| #[trigger] d.has_record(id) implies d.record_of(id).live() by {
        let w = d.index_of(id);
        assert(d.records@[w].live());
    }
}

/// The records a reaper cycle keeps: those whose child has not exited.
pub open spec fn keep_pred() -> spec_fn(ProcessRecord) -> bool {
    |r: ProcessRecord| !r.reapable()
}

/// The records a reaper cycle reclaims: those whose child has exited.
pub open spec fn reap_pred() -> spec_fn(ProcessRecord) -> bool {
    |r: ProcessRecord| r.reapable()
}

/// Record ids are unique: two positions carrying the same id coincide.
proof fn lemma_id_unique(d: Daemon, i: int, j: int)
    requires
        d.wf(),
        0 <= i < d.records@.len(),
        0 <= j < d.records@.len(),
        d.records@[i].id == d.records@[j].id,
    ensures
        i == j,
{
    if i < j {
        assert(d.records@[i].id < d.records@[j].id);
    } else if j < i {
        assert(d.records@[j].id < d.records@[i].id);
    }
}

/// The record at position `i` is the one `index_of` finds for its id.
proof fn lemma_index_at(d: Daemon, i: int)
    requires
        d.wf(),
        0 <= i < d.records@.len(),
    ensures
        d.has_record(d.records@[i].id),
        d.index_of(d.records@[i].id) == i,
        d.record_of(d.records@[i].id) == d.records@[i],
{
    assert(d.has_record(d.records@[i].id));
    let w = d.index_of(d.records@[i].id);
    lemma_id_unique(d, w, i);
}

/// On a sequence with nothing to reap, a cycle's filters are trivial.
proof fn lemma_filter_all_keep(s: Seq<ProcessRecord>)
    requires
        forall|i: int| 0 <= i < s.len() ==> !(#[trigger] s[i]).reapable(),
    ensures
        s.filter(keep_pred()) == s,
        s.filter(reap_pred()) == Seq::<ProcessRecord>::empty(),
    decreases s.len(),
{
    reveal(Seq::filter);
    if s.len() > 0 {
        lemma_filter_all_keep(s.drop_last());
        assert(s.drop_last().push(s.last()) =~= s);
    } else {
        assert(s.filter(keep_pred()) =~= s);
    }
}

/// Filtering a one-element sequence keeps or drops that element.
proof fn lemma_filter_singleton(x: ProcessRecord)
    ensures
        seq![x].filter(keep_pred()) == if !x.reapable() {
            seq![x]
        } else {
            Seq::<ProcessRecord>::empty()
        },
        seq![x].filter(reap_pred()) == if x.reapable() {
            seq![x]
        } else {
            Seq::<ProcessRecord>::empty()
        },
{
    reveal(Seq::filter);
    assert(seq![x].drop_last() =~= Seq::<ProcessRecord>::empty());
    assert(Seq::<ProcessRecord>::empty().filter(keep_pred()) =~= Seq::<ProcessRecord>::empty());
    assert(Seq::<ProcessRecord>::empty().filter(reap_pred()) =~= Seq::<ProcessRecord>::empty());
}

/// Every element of a filtered sequence already stands in the sequence
/// it was filtered from.
proof fn lemma_filter_subset(s: Seq<ProcessRecord>, pred: spec_fn(ProcessRecord) -> bool)
    ensures
        forall|k: int|
            0 <= k < s.filter(pred).len() ==> s.contains(#[trigger] s.filter(pred)[k]),
    decreases s.len(),
{
    reveal(Seq::filter);
    if s.len() > 0 {
        lemma_filter_subset(s.drop_last(), pred);
        assert forall|k: int|
            0 <= k < s.filter(pred).len() implies s.contains(#[trigger] s.filter(pred)[k]) by {
            let f = s.filter(pred);
            let fd = s.drop_last().filter(pred);
            if pred(s.last()) && k == f.len() - 1 {
                assert(s[s.len() - 1] == f[k]);
            } else {
                assert(fd.len() > k);
                assert(s.drop_last().contains(fd[k]));
                let w = choose|w: int|
                    0 <= w < s.drop_last().len() && s.drop_last()[w] == fd[k];
                assert(s[w] == f[k]);
            }
        }
    }
}

/// Removing the first record that must be reaped leaves the kept records
/// untouched and takes exactly that record off the front of the reap list.
proof fn lemma_reap_first(s: Seq<ProcessRecord>, i: int)
    requires
        0 <= i < s.len(),
        s[i].reapable(),
        forall|j: int| 0 <= j < i ==> !(#[trigger] s[j]).reapable(),
    ensures
        s.remove(i).filter(keep_pred()) == s.filter(keep_pred()),
        s.filter(reap_pred()) == seq![s[i]] + s.remove(i).filter(reap_pred()),
{
    let front = s.subrange(0, i);
    let mid = seq![s[i]];
    let back = s.subrange(i + 1, s.len() as int);
    assert(s =~= (front + mid) + back);
    assert(s.remove(i) =~= front + back);
    Seq::filter_distributes_over_add(front + mid, back, keep_pred());
    Seq::filter_distributes_over_add(front, mid, keep_pred());
    Seq::filter_distributes_over_add(front, back, keep_pred());
    Seq::filter_distributes_over_add(front + mid, back, reap_pred());
    Seq::filter_distributes_over_add(front, mid, reap_pred());
    Seq::filter_distributes_over_add(front, back, reap_pred());
    lemma_filter_singleton(s[i]);
    lemma_filter_all_keep(front);
    assert(s.filter(keep_pred()) =~= s.remove(i).filter(keep_pred()));
    assert(s.filter(reap_pred()) =~= mid + s.remove(i).filter(reap_pred()));
}

} // verus!
