use std::io;
use std::path::PathBuf;
use std::time::Duration;
use succession::supervision::{Event, ExitStatus, Next, Restart, Supervisor, Turn};
use succession::{Compat, Identity, Occupancy, Record, Role, Run, Tenant};

const POLICY: Restart = Restart {
    base: Duration::from_secs(2),
    ceiling: Duration::from_secs(60),
    healthy_after: Duration::from_secs(30),
};
const INSTANT: Duration = Duration::from_millis(20);
const EXITED: ExitStatus<'static> = ExitStatus {
    code: Some(1),
    signal: None,
    words: "exit status: 1",
};

fn supervisor() -> Supervisor {
    let role = Role::new(&PathBuf::from("/run/my-app"), "helper");
    Supervisor::new(role, Run::from_raw(7))
}

fn held_by(run: u64) -> Occupancy {
    Occupancy::HeldBy(Record::new(
        Identity::new(Run::from_raw(run), Compat::from_raw(18)),
        Tenant {
            pid: 4242,
            started_at: None,
            image: None,
        },
    ))
}

#[test]
fn a_helper_that_dies_at_startup_is_retried_ever_more_slowly() {
    let mut delay = POLICY.next_delay(POLICY.base, INSTANT);
    assert_eq!(delay, POLICY.base * 2);
    for _ in 0..10 {
        delay = POLICY.next_delay(delay, INSTANT);
    }
    assert_eq!(delay, POLICY.ceiling);
}

#[test]
fn a_run_that_lasted_resets_the_backoff() {
    assert_eq!(
        POLICY.next_delay(POLICY.ceiling, POLICY.healthy_after),
        POLICY.base
    );
}

#[test]
fn the_default_restart_policy() {
    assert_eq!(Restart::default(), POLICY);
}

#[test]
fn the_delay_doubles_until_the_ceiling() {
    let mut delay = POLICY.base;
    for seconds in [4, 8, 16, 32, 60, 60] {
        delay = POLICY.next_delay(delay, INSTANT);
        assert_eq!(delay, Duration::from_secs(seconds));
    }
    let almost = POLICY.healthy_after - Duration::from_nanos(1);
    assert_eq!(POLICY.next_delay(Duration::from_secs(30), almost), POLICY.ceiling);
    // A run that lasted is asked for nothing else.
    assert_eq!(POLICY.next_delay(Duration::MAX, POLICY.healthy_after), POLICY.base);
}

#[test]
fn a_supervisor_backs_off_as_its_restart_policy_says() {
    let mut supervisor = supervisor();
    assert_eq!(supervisor.delay(), POLICY.base);
    for seconds in [4, 8, 16, 32, 60, 60] {
        let event = supervisor.back_off(INSTANT).expect("a delay");
        assert!(matches!(event, Event::BackingOff(delay) if delay == Duration::from_secs(seconds)));
    }
    let event = supervisor.back_off(Duration::from_secs(31)).expect("a delay");
    assert!(matches!(event, Event::BackingOff(delay) if delay == POLICY.base));
    let mut supervisor = supervisor.restart(Restart {
        base: Duration::from_secs(1),
        ceiling: Duration::from_secs(3),
        healthy_after: Duration::from_secs(10),
    });
    for seconds in [2, 3, 3] {
        let event = supervisor.back_off(INSTANT).expect("a delay");
        assert!(matches!(event, Event::BackingOff(delay) if delay == Duration::from_secs(seconds)));
    }
}

#[test]
fn a_delay_that_cannot_be_doubled_is_noticed() {
    let longest = Duration::MAX / 2;
    let policy = Restart {
        base: longest + Duration::from_nanos(1),
        ceiling: Duration::MAX,
        ..POLICY
    };
    assert_eq!(policy.checked_next_delay(longest, INSTANT), Some(longest * 2));
    assert_eq!(policy.checked_next_delay(policy.base, INSTANT), None);
    assert_eq!(
        policy.checked_next_delay(policy.base, POLICY.healthy_after),
        Some(policy.base)
    );
    let mut supervisor = supervisor().restart(policy);
    assert!(supervisor.back_off(INSTANT).is_none());
    assert_eq!(supervisor.delay(), policy.base);
}

#[test]
fn a_free_role_is_a_turn_to_start() {
    let mut supervisor = supervisor();
    assert!(matches!(
        supervisor.tick(&Occupancy::Free, Duration::ZERO),
        Turn::Start
    ));
    assert_eq!(
        supervisor.role().lock_path(),
        &PathBuf::from("/run/my-app/helper.lock")
    );
}

#[test]
fn a_filled_role_is_a_turn_to_pause() {
    let mut supervisor = supervisor();
    let mine = held_by(7);
    let Turn::Pause { event, pause } = supervisor.tick(&mine, Duration::ZERO) else {
        panic!("a filled role must be waited for");
    };
    assert!(matches!(event, Event::Occupied(occupancy) if *occupancy == mine));
    assert_eq!(pause, Duration::from_millis(500));

    let mut supervisor = supervisor.poll(Duration::from_millis(10));
    let foreign = held_by(9);
    let Turn::Pause { event, pause } = supervisor.tick(&foreign, Duration::ZERO) else {
        panic!("a superseded tenant must be reported");
    };
    assert!(matches!(event, Event::Superseded(record) if Occupancy::HeldBy(record.clone()) == foreign));
    assert_eq!(pause, Duration::from_millis(10));
}

#[test]
fn grace_is_counted_from_the_first_sight() {
    let mut supervisor = supervisor();
    let anonymous = Occupancy::HeldAnonymously;
    let sees_superseded = |supervisor: &mut Supervisor, seconds: u64| {
        let turn = supervisor.tick(&Occupancy::HeldAnonymously, Duration::from_secs(seconds));
        match turn {
            Turn::Pause { event, .. } => matches!(event, Event::SupersededAnonymously),
            Turn::Start => panic!("the role is filled"),
        }
    };
    assert!(!sees_superseded(&mut supervisor, 100));
    assert!(!sees_superseded(&mut supervisor, 114));
    assert!(sees_superseded(&mut supervisor, 115));
    assert!(sees_superseded(&mut supervisor, 200));
    // A free role ends the wait, and the next one begins anew.
    assert!(matches!(
        supervisor.tick(&Occupancy::Free, Duration::from_secs(201)),
        Turn::Start
    ));
    assert!(!sees_superseded(&mut supervisor, 202));
    assert!(sees_superseded(&mut supervisor, 217));
    // A supervisor without patience does not wait at all.
    let mut impatient = supervisor.grace(Duration::ZERO);
    assert!(matches!(
        impatient.tick(&anonymous, Duration::from_secs(217)),
        Turn::Pause {
            event: Event::SupersededAnonymously,
            ..
        }
    ));
}

#[test]
fn an_unidentified_tenant_gets_a_grace_period_of_its_own() {
    let anonymous = Occupancy::HeldAnonymously;
    for before in [held_by(7), held_by(9), Occupancy::Free] {
        let mut supervisor = supervisor();
        // Whatever filled the role before, however long it did, is no part of
        // the wait.
        for seconds in [0, 5, 100] {
            supervisor.tick(&before, Duration::from_secs(seconds));
        }
        let mut sees = |seconds: u64| match supervisor.tick(&anonymous, Duration::from_secs(seconds))
        {
            Turn::Pause { event, .. } => matches!(event, Event::Occupied(_)),
            Turn::Start => panic!("the role is filled"),
        };
        assert!(sees(200));
        assert!(sees(214));
        assert!(!sees(215));
        // A tenant that identifies itself in between ends the wait.
        supervisor.tick(&held_by(7), Duration::from_secs(216));
        assert!(matches!(
            supervisor.tick(&anonymous, Duration::from_secs(300)),
            Turn::Pause {
                event: Event::Occupied(Occupancy::HeldAnonymously),
                ..
            }
        ));
    }
}

#[test]
fn only_a_helper_that_was_started_is_waited_for() {
    let (event, next) = Supervisor::start(Ok(4242));
    assert!(matches!(event, Event::Started(4242)));
    assert_eq!(next, Next::AwaitExit);
    let missing = io::Error::new(io::ErrorKind::NotFound, "no such file");
    let (event, next) = Supervisor::start(Err(&missing));
    assert!(matches!(
        event,
        Event::SpawnFailed(error) if error.kind() == io::ErrorKind::NotFound
    ));
    assert_eq!(next, Next::BackOff);
    let (event, next) = Supervisor::exited(Ok(EXITED), INSTANT);
    assert!(matches!(
        event,
        Event::Exited { status, ran_for } if status == EXITED && ran_for == INSTANT
    ));
    assert_eq!(next, Next::BackOff);
    // A helper that cannot be waited for was started all the same.
    let lost = io::Error::new(io::ErrorKind::Interrupted, "no child");
    let (event, next) = Supervisor::exited(Err(&lost), INSTANT);
    assert!(matches!(
        event,
        Event::WaitFailed(error) if error.kind() == io::ErrorKind::Interrupted
    ));
    assert_eq!(next, Next::BackOff);
}

#[test]
fn events_can_be_put_in_words() {
    let occupancy = Occupancy::HeldAnonymously;
    assert_eq!(
        Event::Occupied(&occupancy).describe(),
        "role held by an unidentified tenant"
    );
    let Occupancy::HeldBy(record) = held_by(9) else {
        panic!("held");
    };
    assert_eq!(
        Event::Superseded(&record).describe(),
        "role held by a finished run: pid 4242, serving run 9"
    );
    assert_eq!(
        Event::SupersededAnonymously.describe(),
        "role held by a tenant that never identified itself"
    );
    assert_eq!(Event::Started(4242).describe(), "helper started, pid 4242");
    assert_eq!(
        Event::Exited {
            status: EXITED,
            ran_for: Duration::from_millis(1250),
        }
        .describe(),
        format!("helper exited exit status: 1 after {:.1?}", Duration::from_millis(1250))
    );
    let missing = io::Error::new(io::ErrorKind::NotFound, "no such file");
    assert_eq!(
        Event::SpawnFailed(&missing).describe(),
        "helper could not be started: no such file"
    );
    assert_eq!(
        Event::SpawnFailed(&missing).describe_saying("in other words"),
        "helper could not be started: in other words"
    );
    let lost = io::Error::new(io::ErrorKind::Interrupted, "no child");
    assert_eq!(
        Event::WaitFailed(&lost).describe(),
        "helper could not be waited for: no child"
    );
    assert_eq!(
        Event::BackingOff(Duration::from_secs(2)).describe(),
        "waiting 2.0s before the next attempt"
    );
}
