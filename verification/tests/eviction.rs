use std::path::PathBuf;
use std::time::Duration;
use succession::eviction::{
    approach, evict, evict_anonymous, sole, AnonymousOutcome, Order, Outcome, Policy, Press,
    Pressed, Progress, Unconfirmed,
};
use succession::{
    candidates_among, candidates_listed, running_from, Compat, Identity, Listed, Record, Run, Sameness,
    Tenant,
};

fn tenant(pid: u32) -> Tenant {
    Tenant {
        pid,
        started_at: Some(1),
        image: None,
    }
}

fn record(tenant: Tenant) -> Record {
    Record::new(Identity::new(Run::from_raw(1), Compat::from_raw(1)), tenant)
}

fn my_pid() -> u32 {
    sysinfo::get_current_pid()
        .expect("this process has a pid")
        .as_u32()
}

fn nobodys_pid() -> u32 {
    // Above every pid that the kernel hands out.
    0x7fff_fff0
}

#[test]
fn a_pid_that_is_gone_needs_no_signal() {
    let outcome = evict(&record(tenant(nobodys_pid())), &Policy::default());
    assert_eq!(outcome.err(), Some(Outcome::AlreadyGone));
}

#[test]
fn a_pid_that_no_longer_matches_its_record_is_never_signalled() {
    // This process, described wrongly: the start time refutes the record,
    // so eviction must refuse rather than kill the test runner.
    let outcome = evict(
        &record(Tenant {
            pid: my_pid(),
            started_at: Some(1),
            image: None,
        }),
        &Policy::default(),
    );
    assert_eq!(outcome.err(), Some(Outcome::Refused(Sameness::Different)));
}

#[test]
fn the_evictor_never_counts_itself_as_a_candidate() {
    let me = Tenant::look_up(my_pid()).expect("this process is running");
    let mine = me.image.expect("this test binary's path");
    let candidates = running_from(&mine, my_pid());
    assert!(
        !candidates.iter().any(|tenant| tenant.pid == my_pid()),
        "the current process must never be a candidate"
    );
    // The same walk on behalf of somebody else does find this process.
    let candidates = running_from(&mine, nobodys_pid());
    assert!(candidates.iter().any(|tenant| tenant.pid == my_pid()));
    assert!(candidates.iter().all(|tenant| tenant.image.as_ref() == Some(&mine)));
}

#[test]
fn the_threads_of_a_process_are_no_candidates() {
    // A test runs in a thread of its own, beside the thread of its runner.
    let me = Tenant::look_up(my_pid()).expect("this process is running");
    let mine = me.image.expect("this test binary's path");
    let pids: Vec<u32> = running_from(&mine, nobodys_pid())
        .iter()
        .map(|tenant| tenant.pid)
        .collect();
    assert_eq!(pids, vec![my_pid()]);
    let outcome = evict_anonymous(&mine, my_pid(), &Policy::default());
    assert_eq!(outcome.err(), Some(AnonymousOutcome::NoCandidate));
}

#[test]
fn nothing_running_from_the_expected_image_is_left_alone() {
    let outcome = evict_anonymous(
        &PathBuf::from("/nonexistent/succession-helper"),
        my_pid(),
        &Policy::default(),
    );
    assert_eq!(outcome.err(), Some(AnonymousOutcome::NoCandidate));
}

#[test]
fn siblings_that_cannot_be_told_apart_are_all_spared() {
    // Only one of them holds the role and nothing here says which, so
    // signalling either one is a coin flip with a bystander's life.
    let candidates = vec![tenant(11), tenant(12), tenant(13)];
    assert_eq!(
        sole(candidates),
        Err(AnonymousOutcome::Ambiguous { running: 3 })
    );
}

#[test]
fn a_forced_choice_is_taken() {
    assert_eq!(sole(vec![tenant(11)]).map(|found| found.pid), Ok(11));
    assert_eq!(sole(Vec::new()), Err(AnonymousOutcome::NoCandidate));
}

#[test]
fn an_unconfirmable_pid_is_refused_by_default() {
    let outcome = evict(
        &record(Tenant {
            pid: my_pid(),
            started_at: None,
            image: None,
        }),
        &Policy::default(),
    );
    assert_eq!(outcome.err(), Some(Outcome::Refused(Sameness::Inconclusive)));
}

#[test]
fn a_confirmed_tenant_is_pressed() {
    let me = Tenant::look_up(my_pid()).expect("this process is running");
    assert_eq!(me.pid, my_pid());
    let (order, press) =
        evict(&record(me.clone()), &Policy::default()).expect("the record is right");
    assert_eq!(order, Order::Ask(my_pid()));
    assert_eq!(press.tenant(), &me);
    assert_eq!(press.poll(), Duration::from_millis(100));
}

#[test]
fn what_to_do_about_a_tenant_depends_on_what_is_behind_its_pid() {
    let policy = Policy::default();
    let insistent = Policy {
        unconfirmed: Unconfirmed::Signal,
        ..policy
    };
    let bare = Tenant {
        pid: 10,
        started_at: None,
        image: None,
    };
    let known = tenant(10);
    let refused = |record: &Record, policy: &Policy, live: Option<Tenant>| {
        approach(record, policy, &live).err()
    };
    assert_eq!(
        refused(&record(known.clone()), &policy, None),
        Some(Outcome::AlreadyGone)
    );
    assert_eq!(refused(&record(known.clone()), &policy, Some(known.clone())), None);
    assert_eq!(
        refused(&record(bare.clone()), &policy, Some(known.clone())),
        Some(Outcome::Refused(Sameness::Inconclusive))
    );
    assert_eq!(refused(&record(bare), &insistent, Some(known.clone())), None);
    assert_eq!(
        refused(&record(known), &insistent, Some(tenant(10).started(2))),
        Some(Outcome::Refused(Sameness::Different))
    );
}

#[test]
fn candidates_run_from_the_image_and_are_not_the_evictor() {
    let at = |pid: u32, image: &str| Tenant {
        pid,
        started_at: Some(1),
        image: Some(PathBuf::from(image)),
    };
    let processes = vec![
        at(1, "/opt/helper"),
        at(2, "/opt/other"),
        tenant(3),
        at(4, "/opt/helper"),
        at(5, "helper"),
        at(6, "/opt/helper"),
    ];
    assert_eq!(
        candidates_among(processes, &PathBuf::from("/opt/helper"), 4),
        vec![at(1, "/opt/helper"), at(6, "/opt/helper")]
    );
}

#[test]
fn listed_processes_are_taken_with_all_their_facts() {
    let helper = PathBuf::from("/opt/helper");
    let at = |pid: u32| Listed {
        pid,
        started_at: 1000 + u64::from(pid),
        image: Some(helper.clone()),
        is_thread: false,
    };
    let thread_at = |pid: u32| Listed {
        is_thread: true,
        ..at(pid)
    };
    let tenant_at = |pid: u32| Tenant {
        pid,
        started_at: Some(1000 + u64::from(pid)),
        image: Some(helper.clone()),
    };
    assert_eq!(Tenant::found(Some(at(7))), Some(tenant_at(7)));
    assert_eq!(Tenant::found(None), None);
    assert_eq!(Tenant::found(Some(thread_at(7))), None);
    let unknown = Listed {
        image: None,
        ..at(2)
    };
    let processes = vec![at(1), unknown, thread_at(6), at(3), at(4), thread_at(5)];
    assert_eq!(
        candidates_listed(processes, &helper, 3),
        vec![tenant_at(1), tenant_at(4)]
    );
}

#[test]
fn the_default_policy_is_careful() {
    assert_eq!(
        Policy::default(),
        Policy {
            unconfirmed: Unconfirmed::Refuse,
            escalate_after: Some(Duration::from_secs(2)),
            deadline: Duration::from_secs(5),
            poll: Duration::from_millis(100),
        }
    );
}

#[test]
fn a_lingering_tenant_is_killed_once_and_then_given_up_on() {
    let live = Some(tenant(10));
    let (order, mut press) = Press::begin(tenant(10), Policy::default());
    assert_eq!(order, Order::Ask(10));
    let pause = |kill: bool| Progress::Pause {
        order: kill.then_some(Order::Kill(10)),
    };
    assert_eq!(press.observe(&live, Duration::ZERO), pause(false));
    assert_eq!(press.observe(&live, Duration::from_millis(1999)), pause(false));
    assert_eq!(press.observe(&live, Duration::from_millis(2000)), pause(true));
    assert_eq!(press.observe(&live, Duration::from_millis(2100)), pause(false));
    assert_eq!(press.observe(&live, Duration::from_millis(4999)), pause(false));
    assert_eq!(
        press.observe(&live, Duration::from_secs(5)),
        Progress::Ended(Pressed::Stubborn)
    );
}

#[test]
fn a_policy_that_does_not_escalate_never_kills() {
    let live = Some(tenant(10));
    let patient = Policy {
        escalate_after: None,
        ..Policy::default()
    };
    // One that would escalate after the deadline never gets there.
    let late = Policy {
        escalate_after: Some(Duration::from_secs(5)),
        ..Policy::default()
    };
    for policy in [patient, late] {
        let (order, mut press) = Press::begin(tenant(10), policy);
        assert_eq!(order, Order::Ask(10));
        for millis in [0, 2000, 4999] {
            assert_eq!(
                press.observe(&live, Duration::from_millis(millis)),
                Progress::Pause { order: None }
            );
        }
        assert_eq!(
            press.observe(&live, Duration::from_secs(5)),
            Progress::Ended(Pressed::Stubborn)
        );
    }
}

#[test]
fn a_tenant_that_is_gone_has_left() {
    let (_, mut press) = Press::begin(tenant(10), Policy::default());
    let left = Progress::Ended(Pressed::Left);
    assert_eq!(press.observe(&None, Duration::from_secs(9)), left);
    // A pid that now belongs to something else reads as gone, too.
    assert_eq!(press.observe(&Some(tenant(10).started(2)), Duration::ZERO), left);
}

#[test]
fn an_end_is_an_outcome_of_either_eviction() {
    assert_eq!(Pressed::Left.outcome(), Outcome::Left);
    assert_eq!(Pressed::Stubborn.outcome(), Outcome::Stubborn);
    assert_eq!(Pressed::Left.anonymous_outcome(), AnonymousOutcome::Left);
    assert_eq!(
        Pressed::Stubborn.anonymous_outcome(),
        AnonymousOutcome::Stubborn
    );
}
