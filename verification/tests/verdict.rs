use std::time::Duration;
use succession::{verdict, Compat, Identity, Occupancy, Record, Run, Tenant, Verdict};

const GRACE: Duration = Duration::from_secs(15);
const ALMOST_GRACE: Duration = Duration::from_millis(14_999);

fn mine() -> Run {
    Run::from_raw(7)
}

fn held_by(run: u64) -> Occupancy {
    Occupancy::HeldBy(Record::new(
        Identity::new(Run::from_raw(run), Compat::from_raw(18)),
        Tenant {
            pid: 4242,
            started_at: None,
            image: None,
        },
    ))
}

#[test]
fn a_free_role_is_taken_at_once() {
    assert_eq!(
        verdict(&Occupancy::Free, mine(), Duration::ZERO, GRACE),
        Verdict::Start
    );
}

#[test]
fn the_supervisors_own_tenant_is_never_evicted() {
    // However long it sits there: the supervisor owns that child handle
    // and must not race itself for the role.
    assert_eq!(
        verdict(&held_by(7), mine(), Duration::from_secs(3600), GRACE),
        Verdict::Wait
    );
}

#[test]
fn a_tenant_from_a_finished_run_is_evicted_without_waiting() {
    // No deadline guesswork: the record says whose it is.
    let Verdict::Evict(record) = verdict(&held_by(9), mine(), Duration::ZERO, GRACE) else {
        panic!("a foreign tenant must be evicted");
    };
    assert_eq!(record.tenant.pid, 4242);
}

#[test]
fn an_anonymous_tenant_is_given_the_grace_period_first() {
    assert_eq!(
        verdict(&Occupancy::HeldAnonymously, mine(), Duration::ZERO, GRACE),
        Verdict::Wait
    );
    assert_eq!(
        verdict(&Occupancy::HeldAnonymously, mine(), ALMOST_GRACE, GRACE),
        Verdict::Wait
    );
    assert_eq!(
        verdict(&Occupancy::HeldAnonymously, mine(), GRACE, GRACE),
        Verdict::EvictAnonymous
    );
}

#[test]
fn an_identified_tenant_is_judged_on_sight() {
    for waited in [Duration::ZERO, GRACE, Duration::MAX] {
        for grace in [Duration::ZERO, GRACE, Duration::MAX] {
            assert_eq!(verdict(&held_by(7), mine(), waited, grace), Verdict::Wait);
            let evicted = verdict(&held_by(9), mine(), waited, grace);
            assert_eq!(held_by(9), match evicted.clone() {
                Verdict::Evict(record) => Occupancy::HeldBy(record),
                _ => Occupancy::Free,
            });
        }
    }
}

#[test]
fn the_grace_period_runs_out_to_the_nanosecond() {
    let short = GRACE - Duration::from_nanos(1);
    let anonymous = Occupancy::HeldAnonymously;
    assert_eq!(verdict(&anonymous, mine(), short, GRACE), Verdict::Wait);
    for waited in [GRACE, GRACE * 2, Duration::MAX] {
        assert_eq!(
            verdict(&anonymous, mine(), waited, GRACE),
            Verdict::EvictAnonymous
        );
    }
}
