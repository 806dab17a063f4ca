use std::io;
use std::path::PathBuf;
use succession::{
    temporary_suffix, ClaimError, Compat, Identity, LockAttempt, Occupancy, PublishNext,
    PublishStep, Record, Role, Run, Tenant,
};

fn role() -> Role {
    Role::new(&PathBuf::from("/run/my-app"), "helper")
}

fn record(run: u64) -> Record {
    let tenant = Tenant {
        pid: 4242,
        started_at: None,
        image: Some(PathBuf::from("/opt/app/helper")),
    };
    Record::new(
        Identity::new(Run::from_raw(run), Compat::from_raw(18)),
        tenant.started(1_723_800_000),
    )
}

fn trouble(kind: io::ErrorKind) -> io::Error {
    io::Error::from(kind)
}

/// What a tenant of `run` leaves in the claim file while it holds the role.
fn claimed(run: u64) -> (PathBuf, String) {
    let mut written = None;
    let tenancy = role()
        .claim(&record(run), Ok(LockAttempt::Taken("the lock")), |path, text| {
            written = Some((path.clone(), text));
            Ok(())
        })
        .expect("a free role must be claimable");
    assert_eq!(tenancy.record_path(), role().record_path());
    written.expect("claiming publishes")
}

fn seen(text: Option<String>) -> Occupancy {
    let held: Result<LockAttempt<()>, io::Error> = Ok(LockAttempt::WouldBlock);
    role().occupancy(held, |_| text).expect("a held role can be looked at")
}

#[test]
fn a_role_is_two_files_in_its_directory() {
    assert_eq!(role().lock_path(), &PathBuf::from("/run/my-app/helper.lock"));
    assert_eq!(role().record_path(), &PathBuf::from("/run/my-app/helper.claim"));
    assert_eq!(role().clone(), role());
}

#[test]
fn an_absent_lock_file_is_a_free_role() {
    let absent: Result<LockAttempt<()>, io::Error> = Err(trouble(io::ErrorKind::NotFound));
    let found = role().occupancy(absent, |_| panic!("a free role has no record to read"));
    assert_eq!(found.expect("free"), Occupancy::Free);
}

#[test]
fn taking_the_role_is_what_publishes_the_record() {
    let (path, text) = claimed(7);
    assert_eq!(&path, role().record_path());
    match seen(Some(text)) {
        Occupancy::HeldBy(seen) => assert_eq!(seen, record(7)),
        other => panic!("expected an identified tenant, got {other:?}"),
    }
}

#[test]
fn an_unpublishable_claim_fails_and_lets_the_lock_go() {
    let lock = std::rc::Rc::new(());
    let error = role()
        .claim(&record(7), Ok(LockAttempt::Taken(lock.clone())), |_, _| {
            Err(trouble(io::ErrorKind::IsADirectory))
        })
        .expect_err("a record that cannot be written must fail the claim");
    assert!(
        matches!(error, ClaimError::Unpublishable(_)),
        "expected an unpublishable claim, got {error:?}"
    );
    assert_eq!(std::rc::Rc::strong_count(&lock), 1, "the lock must be let go");
    assert_eq!(error.source().map(io::Error::kind), Some(io::ErrorKind::IsADirectory));
    assert_eq!(error.describe(), "the role's record could not be published");
}

#[test]
fn a_junk_record_does_not_hide_the_tenant() {
    let junk = "this is not a claim record".to_string();
    assert_eq!(seen(Some(junk)), Occupancy::HeldAnonymously);
    assert_eq!(seen(None), Occupancy::HeldAnonymously);
}

#[test]
fn a_held_role_cannot_be_claimed_again() {
    let held: Result<LockAttempt<()>, io::Error> = Ok(LockAttempt::WouldBlock);
    let claim = role().claim(&record(9), held, |_, _| panic!("nothing is published"));
    assert!(matches!(claim, Err(ClaimError::Occupied)));
}

#[test]
fn a_lock_file_in_trouble_fails_both_ways() {
    for kind in [io::ErrorKind::PermissionDenied, io::ErrorKind::StorageFull] {
        let cannot_open: Result<LockAttempt<()>, io::Error> = Err(trouble(kind));
        let claim = role().claim(&record(7), cannot_open, |_, _| Ok(()));
        assert!(matches!(claim, Err(ClaimError::Io(error)) if error.kind() == kind));

        let cannot_lock: Result<LockAttempt<()>, io::Error> = Ok(LockAttempt::Failed(trouble(kind)));
        let claim = role().claim(&record(7), cannot_lock, |_, _| Ok(()));
        assert!(matches!(claim, Err(ClaimError::Io(error)) if error.kind() == kind));

        let cannot_open: Result<LockAttempt<()>, io::Error> = Err(trouble(kind));
        let found = role().occupancy(cannot_open, |_| None);
        assert_eq!(found.expect_err("trouble").kind(), kind);

        let cannot_lock: Result<LockAttempt<()>, io::Error> = Ok(LockAttempt::Failed(trouble(kind)));
        let found = role().occupancy(cannot_lock, |_| None);
        assert_eq!(found.expect_err("trouble").kind(), kind);
    }
    // Not being there is no trouble for a look, but it is for a claim.
    let absent: Result<LockAttempt<()>, io::Error> = Err(trouble(io::ErrorKind::NotFound));
    let claim = role().claim(&record(7), absent, |_, _| Ok(()));
    assert!(matches!(claim, Err(ClaimError::Io(_))));
}

#[test]
fn a_leftover_record_is_ignored_while_the_lock_is_free() {
    // Liveness comes from the lock, so the leftover must not even be read.
    let free = Ok(LockAttempt::Taken("the lock"));
    let found = role().occupancy(free, |_| panic!("the leftover must not be read"));
    assert_eq!(found.expect("free"), Occupancy::Free);
}

#[test]
fn publishing_again_replaces_the_text() {
    let tenancy = role()
        .claim(&record(7), Ok(LockAttempt::Taken(())), |_, _| Ok(()))
        .expect("a free role must be claimable");
    let mut written = None;
    tenancy
        .publish(&record(9), |path, text| {
            written = Some((path.clone(), text));
            Ok(())
        })
        .expect("republishing");
    let (path, text) = written.expect("publishing writes");
    assert_eq!(&path, role().record_path());
    match seen(Some(text)) {
        Occupancy::HeldBy(seen) => assert_eq!(seen.identity.run, Run::from_raw(9)),
        other => panic!("expected an identified tenant, got {other:?}"),
    }
    let failed = tenancy.publish(&record(9), |_, _| Err(trouble(io::ErrorKind::StorageFull)));
    assert_eq!(failed.expect_err("passed on").kind(), io::ErrorKind::StorageFull);
}

#[test]
fn a_record_is_renamed_into_place_once_it_is_whole() {
    let (create, write) = (PublishStep::Create, PublishStep::Write);
    let (sync, rename) = (PublishStep::Sync, PublishStep::Rename);
    assert_eq!(create.next(true), PublishNext::Take(write));
    assert_eq!(write.next(true), PublishNext::Take(sync));
    assert_eq!(sync.next(true), PublishNext::Take(rename));
    assert_eq!(rename.next(true), PublishNext::Published);
    for step in [create, write, sync] {
        assert_eq!(step.next(false), PublishNext::Failed { discard: false });
    }
    assert_eq!(rename.next(false), PublishNext::Failed { discard: true });
    assert_eq!(temporary_suffix(4242), ".4242.tmp");
    assert_eq!(temporary_suffix(0), ".0.tmp");
}

#[test]
fn occupancies_and_failures_can_be_put_in_words() {
    assert_eq!(Occupancy::Free.describe(), "free");
    assert_eq!(
        Occupancy::HeldAnonymously.describe(),
        "held by an unidentified tenant"
    );
    assert_eq!(
        Occupancy::HeldBy(record(7)).describe(),
        "held by pid 4242, serving run 7"
    );
    assert_eq!(ClaimError::Occupied.describe(), "the role is already held");
    assert!(ClaimError::Occupied.source().is_none());
    let error = ClaimError::from(trouble(io::ErrorKind::PermissionDenied));
    assert!(matches!(error, ClaimError::Io(_)));
    assert_eq!(error.describe(), "the role's lock file could not be taken");
    assert_eq!(error.source().map(io::Error::kind), Some(io::ErrorKind::PermissionDenied));
}
