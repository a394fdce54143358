use ele::daemon::{object_path, Daemon};
use ele::gate::{action_id, gate_decision, AuthorityOutcome};
use ele::record::Lifecycle;
use ele::Error;

fn s(x: &str) -> String {
    x.to_string()
}

fn argv(xs: &[&str]) -> Vec<String> {
    xs.iter().map(|x| x.to_string()).collect()
}

/// An authorized creation followed by the full lifecycle: spawn, exit,
/// reap, and the record disappears from subsequent enumeration.
#[test]
fn create_spawn_exit_reap() {
    let mut d = Daemon::new();
    let r = d.create(
        Some(s(":1.42")),
        &s("root"),
        argv(&["/bin/echo", "hi"]),
        false,
        AuthorityOutcome::Allowed,
        true,
    );
    assert_eq!(r, Ok(1));
    assert_eq!(object_path(1), "/de/ytvwld/Ele/1");
    assert_eq!(d.registry, vec![1]);
    assert_eq!(d.records.len(), 1);
    assert_eq!(d.records[0].owner, ":1.42");
    assert_eq!(d.records[0].command, argv(&["/bin/echo", "hi"]));
    assert_eq!(d.records[0].state, Lifecycle::Configuring);

    let cfg = d.spawn_precheck(&s(":1.42"), 1).unwrap();
    assert_eq!(cfg.argv, argv(&["/bin/echo", "hi"]));
    assert!(!cfg.interactive);
    assert_eq!(d.spawn_commit(&s(":1.42"), 1, true), Ok(()));
    assert_eq!(d.records[0].state, Lifecycle::Spawned);

    d.notify_child_exited(1);
    assert!(d.records[0].child_exited);
    let reaped = d.reaper_cycle();
    assert_eq!(reaped, vec![1]);
    assert!(d.registry.is_empty());
    assert!(d.records.is_empty());
    assert_eq!(
        d.signal(&s(":1.42"), 1, 15),
        Err(Error::UnknownProcess)
    );
}

/// An unauthorized caller gets `AccessDenied` and observes no side effect:
/// the id counter does not move, nothing is published.
#[test]
fn unauthorized_create_no_side_effects() {
    let mut d = Daemon::new();
    let r = d.create(
        Some(s(":1.7")),
        &s("root"),
        argv(&["/bin/true"]),
        false,
        AuthorityOutcome::Denied,
        true,
    );
    assert_eq!(r, Err(Error::AccessDenied));
    assert_eq!(d.next_id, 1);
    assert!(d.registry.is_empty());
    assert!(d.records.is_empty());
    // the next authorized caller still receives the first id
    let r = d.create(
        Some(s(":1.8")),
        &s("root"),
        argv(&["/bin/true"]),
        false,
        AuthorityOutcome::Allowed,
        true,
    );
    assert_eq!(r, Ok(1));
}

/// A transport-level fault at the authority is an `AccessDenied` too: the
/// gate's contract is binary.
#[test]
fn authority_fault_is_access_denied() {
    let mut d = Daemon::new();
    let r = d.create(
        Some(s(":1.7")),
        &s("root"),
        argv(&["/bin/true"]),
        false,
        AuthorityOutcome::Fault,
        true,
    );
    assert_eq!(r, Err(Error::AccessDenied));
    assert_eq!(gate_decision(AuthorityOutcome::Allowed), Ok(()));
    assert_eq!(gate_decision(AuthorityOutcome::Denied), Err(Error::AccessDenied));
    assert_eq!(gate_decision(AuthorityOutcome::Fault), Err(Error::AccessDenied));
    assert_eq!(action_id(), "org.freedesktop.policykit.exec");
}

/// An empty command fails with `InvalidArgs` before the authority is ever
/// consulted: even a faulting authority changes nothing about the answer,
/// and the daemon is untouched.
#[test]
fn empty_argv_rejected_before_authorization() {
    let mut d = Daemon::new();
    let r = d.create(
        Some(s(":1.9")),
        &s("root"),
        Vec::new(),
        true,
        AuthorityOutcome::Fault,
        true,
    );
    assert_eq!(r, Err(Error::InvalidArgs));
    assert_eq!(d.next_id, 1);
    assert!(d.records.is_empty());
    assert_eq!(
        Daemon::validate_create(&Some(s(":1.9")), &s("root"), &Vec::new()),
        Err(Error::InvalidArgs)
    );
}

/// Only the single supported privileged account is accepted.
#[test]
fn unsupported_user_rejected() {
    let mut d = Daemon::new();
    let r = d.create(
        Some(s(":1.9")),
        &s("games"),
        argv(&["/bin/true"]),
        false,
        AuthorityOutcome::Allowed,
        true,
    );
    assert_eq!(r, Err(Error::UnsupportedUser));
    assert_eq!(d.next_id, 1);
}

/// A request whose transport names no sender is rejected outright.
#[test]
fn missing_sender_rejected() {
    let mut d = Daemon::new();
    let r = d.create(
        None,
        &s("root"),
        argv(&["/bin/true"]),
        false,
        AuthorityOutcome::Allowed,
        true,
    );
    assert_eq!(r, Err(Error::AccessDenied));
    assert_eq!(d.next_id, 1);
}

/// A failed pseudo-terminal allocation surfaces as `SpawnFailed` and
/// publishes nothing.
#[test]
fn pty_allocation_failure() {
    let mut d = Daemon::new();
    let r = d.create(
        Some(s(":1.9")),
        &s("root"),
        argv(&["/bin/true"]),
        false,
        AuthorityOutcome::Allowed,
        false,
    );
    assert_eq!(r, Err(Error::SpawnFailed));
    assert!(d.records.is_empty());
}

fn one_record(owner: &str) -> Daemon {
    let mut d = Daemon::new();
    d.create(
        Some(s(owner)),
        &s("root"),
        argv(&["/usr/bin/sleep", "5"]),
        false,
        AuthorityOutcome::Allowed,
        true,
    )
    .unwrap();
    d
}

/// Every operation against a record from a caller other than its owner
/// fails with `AccessDenied`, in every lifecycle state.
#[test]
fn foreign_caller_always_denied() {
    let mut d = one_record(":1.1");
    let other = s(":1.2");
    assert_eq!(
        d.set_environment(&other, 1, vec![(s("A"), s("b"))]),
        Err(Error::AccessDenied)
    );
    assert_eq!(d.set_directory(&other, 1, s("/tmp")), Err(Error::AccessDenied));
    assert!(matches!(d.spawn_precheck(&other, 1), Err(Error::AccessDenied)));
    assert_eq!(d.spawn_commit(&other, 1, true), Err(Error::AccessDenied));
    assert_eq!(d.signal(&other, 1, 2), Err(Error::AccessDenied));
    assert!(matches!(d.resize(&other, 1), Err(Error::AccessDenied)));
    // still denied once the record is spawned
    assert_eq!(d.spawn_commit(&s(":1.1"), 1, true), Ok(()));
    assert_eq!(
        d.set_environment(&other, 1, vec![(s("A"), s("b"))]),
        Err(Error::AccessDenied)
    );
    assert_eq!(d.signal(&other, 1, 2), Err(Error::AccessDenied));
    assert_eq!(d.records[0].owner, ":1.1");
}

/// Configuration calls fail with `AlreadyRunning` once the record has been
/// spawned, and the pending configuration they would have touched stays
/// exactly as it was.
#[test]
fn configuration_frozen_after_spawn() {
    let mut d = one_record(":1.1");
    let owner = s(":1.1");
    assert_eq!(
        d.set_environment(&owner, 1, vec![(s("HOME"), s("/root"))]),
        Ok(())
    );
    assert_eq!(d.set_directory(&owner, 1, s("/var")), Ok(()));
    assert_eq!(d.spawn_commit(&owner, 1, true), Ok(()));
    assert_eq!(
        d.set_environment(&owner, 1, vec![(s("HOME"), s("/tmp"))]),
        Err(Error::AlreadyRunning)
    );
    assert_eq!(d.set_directory(&owner, 1, s("/tmp")), Err(Error::AlreadyRunning));
    assert_eq!(d.records[0].environment, vec![(s("HOME"), s("/root"))]);
    assert_eq!(d.records[0].working_directory, Some(s("/var")));
}

/// A second spawn on an already-spawned record always fails with
/// `AlreadyRunning` and never launches a second child.
#[test]
fn second_spawn_rejected() {
    let mut d = one_record(":1.1");
    let owner = s(":1.1");
    assert_eq!(d.spawn_commit(&owner, 1, true), Ok(()));
    assert!(matches!(d.spawn_precheck(&owner, 1), Err(Error::AlreadyRunning)));
    assert_eq!(d.spawn_commit(&owner, 1, true), Err(Error::AlreadyRunning));
    assert_eq!(d.records[0].state, Lifecycle::Spawned);
}

/// A failed launch keeps the record configurable and surfaces
/// `SpawnFailed`.
#[test]
fn failed_launch_leaves_record_configurable() {
    let mut d = one_record(":1.1");
    let owner = s(":1.1");
    assert_eq!(d.spawn_commit(&owner, 1, false), Err(Error::SpawnFailed));
    assert_eq!(d.records[0].state, Lifecycle::Configuring);
    assert_eq!(d.spawn_commit(&owner, 1, true), Ok(()));
}

/// `signal` is owner-gated and state-dependent: malformed before spawn,
/// forwarded while the child runs, a no-op once it has exited.
#[test]
fn signal_lifecycle() {
    let mut d = one_record(":1.1");
    let owner = s(":1.1");
    assert_eq!(d.signal(&owner, 1, 2), Err(Error::InvalidArgs));
    assert_eq!(d.spawn_commit(&owner, 1, true), Ok(()));
    assert_eq!(d.signal(&owner, 1, 2), Ok(Some(2)));
    assert_eq!(d.signal(&owner, 1, 15), Ok(Some(15)));
    d.notify_child_exited(1);
    assert_eq!(d.signal(&owner, 1, 2), Ok(None));
}

/// `resize` is declared but unimplemented; callers must tolerate that.
#[test]
fn resize_not_implemented() {
    let d = one_record(":1.1");
    assert!(matches!(d.resize(&s(":1.1"), 1), Err(Error::NotImplemented)));
}

/// Environment entries merge in call order; later entries stand behind
/// earlier ones so that a later setting of a variable wins.
#[test]
fn environment_merges_in_order() {
    let mut d = one_record(":1.1");
    let owner = s(":1.1");
    d.set_environment(&owner, 1, vec![(s("A"), s("1")), (s("B"), s("2"))])
        .unwrap();
    d.set_environment(&owner, 1, vec![(s("A"), s("3"))]).unwrap();
    assert_eq!(
        d.records[0].environment,
        vec![(s("A"), s("1")), (s("B"), s("2")), (s("A"), s("3"))]
    );
}

fn three_spawned() -> (Daemon, String) {
    let mut d = Daemon::new();
    let owner = s(":1.5");
    for _ in 0..3 {
        let id = d
            .create(
                Some(owner.clone()),
                &s("root"),
                argv(&["/usr/bin/sleep", "9"]),
                false,
                AuthorityOutcome::Allowed,
                true,
            )
            .unwrap();
        d.spawn_commit(&owner, id, true).unwrap();
    }
    (d, owner)
}

/// The reaper removes exactly the records whose children exited, keeps
/// the others in order, and the registry mirrors the published records
/// throughout.
#[test]
fn reaper_removes_only_exited() {
    let (mut d, _owner) = three_spawned();
    assert_eq!(d.registry, vec![1, 2, 3]);
    d.notify_child_exited(2);
    let reaped = d.reaper_cycle();
    assert_eq!(reaped, vec![2]);
    assert_eq!(d.registry, vec![1, 3]);
    let ids: Vec<u64> = d.records.iter().map(|r| r.id).collect();
    assert_eq!(ids, vec![1, 3]);
    assert!(d.records.iter().all(|r| r.pty_open));
}

/// Several exited children are reclaimed in one cycle, in registry order,
/// and an idle cycle reclaims nothing.
#[test]
fn reaper_handles_several_and_none() {
    let (mut d, _owner) = three_spawned();
    d.notify_child_exited(1);
    d.notify_child_exited(3);
    let reaped = d.reaper_cycle();
    assert_eq!(reaped, vec![1, 3]);
    assert_eq!(d.registry, vec![2]);
    let reaped = d.reaper_cycle();
    assert!(reaped.is_empty());
    assert_eq!(d.registry, vec![2]);
}

/// Ids are never reused, even after their records were reclaimed.
#[test]
fn ids_never_reused() {
    let (mut d, owner) = three_spawned();
    d.notify_child_exited(1);
    d.notify_child_exited(2);
    d.notify_child_exited(3);
    d.reaper_cycle();
    let id = d
        .create(
            Some(owner),
            &s("root"),
            argv(&["/bin/true"]),
            false,
            AuthorityOutcome::Allowed,
            true,
        )
        .unwrap();
    assert_eq!(id, 4);
}

/// An operation against an id that was never published, or no longer is,
/// answers `UnknownProcess` and changes nothing.
#[test]
fn unknown_id_rejected() {
    let mut d = one_record(":1.1");
    let owner = s(":1.1");
    assert_eq!(
        d.set_environment(&owner, 9, Vec::new()),
        Err(Error::UnknownProcess)
    );
    assert_eq!(d.set_directory(&owner, 9, s("/")), Err(Error::UnknownProcess));
    assert!(matches!(d.spawn_precheck(&owner, 9), Err(Error::UnknownProcess)));
    assert_eq!(d.spawn_commit(&owner, 9, true), Err(Error::UnknownProcess));
    assert_eq!(d.signal(&owner, 9, 2), Err(Error::UnknownProcess));
    assert_eq!(d.registry, vec![1]);
}

/// The publication path is derived deterministically from the id.
#[test]
fn object_paths() {
    assert_eq!(object_path(1), "/de/ytvwld/Ele/1");
    assert_eq!(object_path(10), "/de/ytvwld/Ele/10");
    assert_eq!(object_path(907), "/de/ytvwld/Ele/907");
    assert_eq!(
        object_path(u64::MAX),
        "/de/ytvwld/Ele/18446744073709551615"
    );
}
