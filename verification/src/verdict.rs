//! The supervisor's side: may I start my helper, or is someone in the seat?

use crate::identity::Run;
use crate::record::Record;
use crate::role::Occupancy;
use crate::time::nanos;
use std::time::Duration;
use vstd::prelude::*;

verus! {

/// What a supervisor should do about the state of a role.
#[derive(Debug, PartialEq, Eq)]
pub enum Verdict {
    /// The role is free: start the helper.
    Start,
    /// Someone is in the seat who should be left alone for now. Look again
    /// shortly.
    Wait,
    /// The tenant belongs to a run that is over. Ask it to leave, then look
    /// again - do not assume the role is yours until the lock is actually
    /// free.
    ///
    /// Verify before signalling: compare the record's [`crate::Tenant`]
    /// against the live process facts for that pid, because a pid can be
    /// reused.
    Evict(Record),
    /// Someone holds the role, published nothing readable, and has had long
    /// enough to leave politely. Nothing can be verified about it, so an
    /// evictor has to fall back on whatever it knows out of band - the
    /// expected image name, say - and should prefer a polite signal.
    EvictAnonymous,
}

impl Clone for Verdict {
    fn clone(&self) -> (copy: Verdict)
        ensures
            copy == *self,
    {
        match self {
            Verdict::Start => Verdict::Start,
            Verdict::Wait => Verdict::Wait,
            Verdict::Evict(record) => Verdict::Evict(record.clone()),
            Verdict::EvictAnonymous => Verdict::EvictAnonymous,
        }
    }
}

/// The verdict on `occupancy`, for a supervisor of run `mine` that has waited
/// `waited` nanoseconds and waits out `grace`.
pub open spec fn verdict_on(occupancy: Occupancy, mine: Run, waited: nat, grace: nat) -> Verdict {
    match occupancy {
        Occupancy::Free => Verdict::Start,
        Occupancy::HeldBy(record) => if record.identity.run == mine {
            Verdict::Wait
        } else {
            Verdict::Evict(record)
        },
        Occupancy::HeldAnonymously => if waited < grace {
            Verdict::Wait
        } else {
            Verdict::EvictAnonymous
        },
    }
}

/// Decide what to do about `occupancy`, given the run the supervisor belongs
/// to and how long it has already been waiting.
///
/// The whole decision, with no I/O in it:
///
/// | occupancy | what to do |
/// |---|---|
/// | free | start |
/// | held by `mine` | wait |
/// | held by another run | evict |
/// | held anonymously, within `grace` | wait |
/// | held anonymously, past `grace` | evict anonymously |
///
/// A tenant of the supervisor's own run is never evicted, however long it
/// takes: the supervisor spawned it, so it holds a handle to it and can deal
/// with a wedged child directly. What this decision is for is the tenant
/// nobody owns any more.
///
/// `grace` exists only for tenants that publish no record - a population that
/// disappears as an application's installs turn over. Once every tenant
/// publishes, an obsolete one is recognized on sight and the wait is over.
#[must_use]
pub fn verdict(occupancy: &Occupancy, mine: Run, waited: Duration, grace: Duration) -> (decided:
    Verdict)
    ensures
        decided == verdict_on(*occupancy, mine, nanos(waited), nanos(grace)),
{
    match occupancy {
        Occupancy::Free => Verdict::Start,
        Occupancy::HeldBy(record) => {
            if record.identity.run == mine {
                Verdict::Wait
            } else {
                Verdict::Evict(record.clone())
            }
        },
        Occupancy::HeldAnonymously => {
            if waited.as_nanos() < grace.as_nanos() {
                Verdict::Wait
            } else {
                Verdict::EvictAnonymous
            }
        },
    }
}

/// A tenant of the supervisor's own run is never evicted, however long it
/// takes.
pub proof fn law_own_tenant_is_never_evicted(record: Record, waited: nat, grace: nat)
    ensures
        verdict_on(Occupancy::HeldBy(record), record.identity.run, waited, grace) is Wait,
{
}

/// A tenant that says who it is is judged by that alone: no waiting and no
/// grace period changes the verdict.
pub proof fn law_an_identified_tenant_is_judged_on_sight(
    record: Record,
    mine: Run,
    waited: nat,
    grace: nat,
    later: nat,
    longer: nat,
)
    ensures
        verdict_on(Occupancy::HeldBy(record), mine, waited, grace) == verdict_on(
            Occupancy::HeldBy(record),
            mine,
            later,
            longer,
        ),
{
}

/// The grace period runs out once: a supervisor that has waited long enough to
/// evict an anonymous tenant does not go back to waiting by waiting longer.
pub proof fn law_grace_runs_out(mine: Run, waited: nat, later: nat, grace: nat)
    requires
        verdict_on(Occupancy::HeldAnonymously, mine, waited, grace) is EvictAnonymous,
        waited <= later,
    ensures
        verdict_on(Occupancy::HeldAnonymously, mine, later, grace) is EvictAnonymous,
{
}

/// The helper is started exactly where nobody holds the role.
pub proof fn law_only_a_free_role_is_taken(occupancy: Occupancy, mine: Run, waited: nat, grace: nat)
    ensures
        verdict_on(occupancy, mine, waited, grace) is Start <==> occupancy is Free,
{
}

/// A tenant that says who it is is evicted exactly where it belongs to another
/// run - whichever of the two tokens is the greater, however long was waited and
/// whatever the grace - and the record to go by is the very one it published. A
/// tenant of the supervisor's own run is waited for.
pub proof fn law_a_tenant_of_another_run_is_evicted(
    record: Record,
    mine: Run,
    waited: Duration,
    grace: Duration,
    decided: Verdict,
)
    requires
        call_ensures(verdict, (&Occupancy::HeldBy(record), mine, waited, grace), decided),
    ensures
        record.identity.run != mine <==> decided == Verdict::Evict(record),
        record.identity.run == mine <==> decided is Wait,
        !(decided is Start),
        !(decided is EvictAnonymous),
{
}

/// An unidentified tenant is left alone while less than the grace period was
/// waited, and evicted as what it is from then on.
pub proof fn law_an_unidentified_tenant_has_the_grace_period(
    mine: Run,
    waited: Duration,
    grace: Duration,
    decided: Verdict,
)
    requires
        call_ensures(verdict, (&Occupancy::HeldAnonymously, mine, waited, grace), decided),
    ensures
        nanos(waited) < nanos(grace) <==> decided is Wait,
        nanos(waited) >= nanos(grace) <==> decided is EvictAnonymous,
{
}

/// The helper is started where the role is free, and nowhere else.
pub proof fn law_a_free_role_is_a_reason_to_start(
    occupancy: Occupancy,
    mine: Run,
    waited: Duration,
    grace: Duration,
    decided: Verdict,
)
    requires
        call_ensures(verdict, (&occupancy, mine, waited, grace), decided),
    ensures
        occupancy is Free <==> decided is Start,
{
}

} // verus!
