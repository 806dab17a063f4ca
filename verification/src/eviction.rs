//! Asking a superseded tenant to leave, without signalling the wrong process.
//!
//! Nothing here signals anyone. [`evict`] and [`evict_anonymous`] decide whether
//! a tenant may be asked to leave, and order it; the [`Press`] they hand out says,
//! look after look, what to do about one that was asked. Every signal to be sent
//! is an [`Order`].

use crate::paths::same_path;
use crate::processes::{
    law_what_is_seen_is_live, law_what_is_seen_runs_from_the_image, running_from, told_apart, was_seen,
    were_seen,
};
use crate::record::{Record, Sameness, Tenant};
use crate::time::nanos;
use std::path::PathBuf;
use std::time::Duration;
use vstd::prelude::*;

verus! {

/// How hard to press a tenant that will not leave.
#[derive(Clone, Copy, Debug, PartialEq, Eq)]
pub struct Policy {
    /// What to do when the record carries nothing but a pid, so the process
    /// cannot be confirmed. Refusing is the safe default: a pid can be reused.
    pub unconfirmed: Unconfirmed,
    /// How long to wait for a polite exit before escalating to a kill.
    /// `None` never escalates.
    pub escalate_after: Option<Duration>,
    /// How long to keep waiting in total.
    pub deadline: Duration,
    /// How often to look again while waiting.
    pub poll: Duration,
}

impl Default for Policy {
    /// Refuse to act on an unconfirmed pid, kill after two seconds, give up
    /// after five.
    fn default() -> (policy: Policy)
        ensures
            policy.unconfirmed is Refuse,
            policy.escalate_after matches Some(after) && nanos(after) == 2_000_000_000,
            nanos(policy.deadline) == 5_000_000_000,
            nanos(policy.poll) == 100_000_000,
    {
        Policy {
            unconfirmed: Unconfirmed::Refuse,
            escalate_after: Some(Duration::from_secs(2)),
            deadline: Duration::from_secs(5),
            poll: Duration::from_millis(100),
        }
    }
}

/// What to do about a tenant whose record proves nothing beyond its pid.
#[derive(Clone, Copy, Debug, PartialEq, Eq, Structural)]
pub enum Unconfirmed {
    /// Leave it alone. Correct whenever another process could plausibly have
    /// inherited the pid.
    Refuse,
    /// Signal it anyway - for a tenant population that predates claim records,
    /// where refusing means the role stays wedged forever.
    Signal,
}

/// How an eviction ended.
#[derive(Clone, Copy, Debug, PartialEq, Eq, Structural)]
pub enum Outcome {
    /// The pid was already gone before anything was signalled.
    AlreadyGone,
    /// It left after being signalled.
    Left,
    /// Nothing was signalled: the live process is not the one in the record.
    Refused(Sameness),
    /// It was signalled and was still running when the deadline elapsed.
    Stubborn,
}

/// What is to be done about the tenant of `record`, given the live process
/// behind its pid where there is one: begin to press it, or report how it ended.
pub open spec fn approach_to(record: Record, policy: Policy, live: Option<Tenant>) -> Result<
    (Order, Pressing),
    Outcome,
> {
    match live {
        None => Err(Outcome::AlreadyGone),
        Some(live) => match record.tenant.sameness(live) {
            Sameness::Same => Ok(Pressing::begun(record.tenant, policy)),
            Sameness::Inconclusive if policy.unconfirmed is Signal => Ok(
                Pressing::begun(record.tenant, policy),
            ),
            refused => Err(Outcome::Refused(refused)),
        },
    }
}

/// What is to be done about the tenant of `record`, given the live process
/// behind its pid where there is one: the order to carry out first, and the press
/// that goes on from there.
///
/// # Errors
///
/// How the eviction ended, where nothing is to be signalled.
pub fn approach(record: &Record, policy: &Policy, live: &Option<Tenant>) -> (approach: Result<
    (Order, Press),
    Outcome,
>)
    ensures
        match approach_to(*record, *policy, *live) {
            Ok((first, pressing)) => approach matches Ok((order, press)) && order == first && press@
                == pressing,
            Err(outcome) => approach == Err::<(Order, Press), Outcome>(outcome),
        },
{
    match live {
        None => Err(Outcome::AlreadyGone),
        Some(live) => match record.tenant.compare(live) {
            Sameness::Same => Ok(Press::begin(record.tenant.clone(), *policy)),
            Sameness::Inconclusive => {
                if policy.unconfirmed == Unconfirmed::Signal {
                    Ok(Press::begin(record.tenant.clone(), *policy))
                } else {
                    Err(Outcome::Refused(Sameness::Inconclusive))
                }
            },
            Sameness::Different => Err(Outcome::Refused(Sameness::Different)),
        },
    }
}

/// Ask the tenant `record` describes to leave.
///
/// The pid is verified against the record first ([`Tenant::compare`]), because
/// a claim record can outlive its writer and the pid may since belong to
/// something unrelated. Only [`Sameness::Same`] - or
/// [`Unconfirmed::Signal`] against [`Sameness::Inconclusive`] - is ever
/// signalled.
///
/// What comes back is the order to ask it, and the press that goes on from there.
///
/// # Errors
///
/// How the eviction ended, where nothing is to be signalled.
pub fn evict(record: &Record, policy: &Policy) -> (approach: Result<(Order, Press), Outcome>)
    ensures
        exists|live: Option<Tenant>| #[trigger]
            was_seen(record.tenant.pid, live) && match approach_to(*record, *policy, live) {
                Ok((first, pressing)) => approach matches Ok((order, press)) && order == first
                    && press@ == pressing,
                Err(outcome) => approach == Err::<(Order, Press), Outcome>(outcome),
            },
{
    let live = Tenant::look_up(record.tenant.pid);
    approach(record, policy, &live)
}

/// How an eviction with nothing to verify against ended.
#[derive(Clone, Copy, Debug, PartialEq, Eq, Structural)]
pub enum AnonymousOutcome {
    /// Nothing running matches `expected`, so the holder is not the caller's
    /// helper. Nothing was signalled.
    NoCandidate,
    /// Several processes match `expected` and only one of them can be holding
    /// the role. Nothing was signalled: which one is unknowable from here, and
    /// guessing means killing a bystander.
    Ambiguous {
        /// How many matched.
        running: usize,
    },
    /// The single candidate left after being signalled.
    Left,
    /// It was signalled and was still running when the deadline elapsed.
    Stubborn,
}

/// Ask an unidentified tenant to leave, recognizing it by the image it runs.
///
/// The answer to a [`Verdict`](crate::Verdict) of `EvictAnonymous`, which
/// reports a held role that published nothing readable - an install that
/// predates claim records, say. There is no record to verify a pid against, so
/// [`evict`] cannot help and the role would otherwise stay wedged for as long
/// as that process lives.
///
/// What makes signalling defensible here is `expected`: the absolute path of
/// the executable the caller starts for this role. Every process behind that
/// path is the caller's own helper, so evicting one is within its authority in
/// a way that acting on a bare pid never is. Matching is exact - a bare file
/// name would reach strangers - and literal, against the path the OS reports,
/// so pass the resolved one rather than a route to it. `mine` is the pid of the
/// calling process, which is never a candidate.
///
/// Refuses whenever the choice is not forced: no match means the holder is
/// something else entirely, and more than one match means the holder cannot be
/// told from its siblings. Both leave the role alone.
///
/// The role is not probed here. Ask again through
/// [`Role::occupancy`](crate::Role::occupancy) afterwards - a supervisor's next
/// tick does exactly that - because a candidate leaving proves the process is
/// gone, not that it was the one holding the lock.
///
/// # Errors
///
/// How the eviction ended, where nothing is to be signalled.
pub fn evict_anonymous(expected: &PathBuf, mine: u32, policy: &Policy) -> (approach: Result<
    (Order, Press),
    AnonymousOutcome,
>)
    ensures
        exists|candidates: Seq<Tenant>| #[trigger]
            were_seen(candidates, *expected, mine) && match sole_of(candidates) {
                Ok(tenant) => approach matches Ok((order, press)) && (order, press@)
                    == Pressing::begun(tenant, *policy),
                Err(refusal) => approach == Err::<(Order, Press), AnonymousOutcome>(refusal),
            },
{
    let candidates = running_from(expected, mine);
    match sole(candidates) {
        Err(refusal) => Err(refusal),
        Ok(candidate) => Ok(Press::begin(candidate, *policy)),
    }
}

/// The one candidate worth pressing, or the refusal to report instead.
pub open spec fn sole_of(candidates: Seq<Tenant>) -> Result<Tenant, AnonymousOutcome> {
    if candidates.len() == 0 {
        Err(AnonymousOutcome::NoCandidate)
    } else if candidates.len() == 1 {
        Ok(candidates[0])
    } else {
        Err(AnonymousOutcome::Ambiguous { running: candidates.len() as usize })
    }
}

/// The one candidate worth pressing, or the refusal to report instead.
///
/// # Errors
///
/// [`AnonymousOutcome::NoCandidate`] where there is none,
/// [`AnonymousOutcome::Ambiguous`] where there are several.
pub fn sole(candidates: Vec<Tenant>) -> (candidate: Result<Tenant, AnonymousOutcome>)
    ensures
        candidate == sole_of(candidates@),
{
    let mut candidates = candidates;
    let running: usize = candidates.len();
    if running == 0 {
        Err(AnonymousOutcome::NoCandidate)
    } else if running == 1 {
        Ok(candidates.remove(0))
    } else {
        Err(AnonymousOutcome::Ambiguous { running })
    }
}

/// Whether a pressed tenant gave up the role.
#[derive(Clone, Copy, Debug, PartialEq, Eq, Structural)]
pub enum Pressed {
    /// The process is gone.
    Left,
    /// It was still running when the deadline elapsed.
    Stubborn,
}

impl Pressed {
    /// The end of an eviction that verified its tenant.
    #[must_use]
    pub fn outcome(self) -> (outcome: Outcome)
        ensures
            outcome == (match self {
                Pressed::Left => Outcome::Left,
                Pressed::Stubborn => Outcome::Stubborn,
            }),
    {
        match self {
            Pressed::Left => Outcome::Left,
            Pressed::Stubborn => Outcome::Stubborn,
        }
    }

    /// The end of an eviction that recognized its tenant by image.
    #[must_use]
    pub fn anonymous_outcome(self) -> (outcome: AnonymousOutcome)
        ensures
            outcome == (match self {
                Pressed::Left => AnonymousOutcome::Left,
                Pressed::Stubborn => AnonymousOutcome::Stubborn,
            }),
    {
        match self {
            Pressed::Left => AnonymousOutcome::Left,
            Pressed::Stubborn => AnonymousOutcome::Stubborn,
        }
    }
}

/// A signal to send.
#[must_use]
#[derive(Clone, Copy, Debug, PartialEq, Eq, Structural)]
pub enum Order {
    /// Ask the process of this pid to leave.
    Ask(u32),
    /// Kill the process of this pid.
    Kill(u32),
}

impl Order {
    /// Whom the signal goes to.
    pub open spec fn pid(self) -> u32 {
        match self {
            Order::Ask(pid) => pid,
            Order::Kill(pid) => pid,
        }
    }
}

/// What to do about a tenant that is being pressed.
#[derive(Clone, Copy, Debug, PartialEq, Eq)]
pub enum Progress {
    /// Nothing more: this is how it ended.
    Ended(Pressed),
    /// Look again after a pause.
    Pause {
        /// What to carry out before that, if anything.
        order: Option<Order>,
    },
}

/// A tenant that was asked to leave.
///
/// Whoever is handed one is handed the order to ask with it. Once that is carried
/// out it looks at the process, shows what it saw to [`Press::observe`], and does
/// what that says, over and over until it has [`Progress::Ended`]. Releasing the
/// role is the point, so this watches the process rather than assuming the signal
/// landed.
#[derive(Debug)]
pub struct Press {
    tenant: Tenant,
    policy: Policy,
    escalated: bool,
}

/// Where a [`Press`] stands.
pub struct Pressing {
    pub tenant: Tenant,
    pub policy: Policy,
    /// Whether there is no kill left to order.
    pub escalated: bool,
}

/// One look at a tenant that is being pressed: the process behind its pid, and
/// how many nanoseconds have passed since it was asked to leave.
pub struct Look {
    pub live: Option<Tenant>,
    pub waited: nat,
}

impl Pressing {
    /// What pressing `tenant` begins with, and where it stands then.
    pub open spec fn begun(tenant: Tenant, policy: Policy) -> (Order, Pressing) {
        (
            Order::Ask(tenant.pid),
            Pressing { tenant, policy, escalated: policy.escalate_after is None },
        )
    }

    /// Whether the tenant is gone. A pid reused inside the deadline reads as
    /// gone: whatever holds it now, it is not the tenant.
    pub open spec fn is_gone(self, look: Look) -> bool {
        match look.live {
            None => true,
            Some(live) => self.tenant.sameness(live) is Different,
        }
    }

    /// Whether the tenant has had its time to leave politely, and has not been
    /// killed yet.
    pub open spec fn kill_is_due(self, look: Look) -> bool {
        &&& !self.escalated
        &&& self.policy.escalate_after matches Some(after) && look.waited >= nanos(after)
    }

    /// What follows from a look.
    pub open spec fn progress(self, look: Look) -> Progress {
        if self.is_gone(look) {
            Progress::Ended(Pressed::Left)
        } else if look.waited >= nanos(self.policy.deadline) {
            Progress::Ended(Pressed::Stubborn)
        } else {
            Progress::Pause {
                order: if self.kill_is_due(look) {
                    Some(Order::Kill(self.tenant.pid))
                } else {
                    None
                },
            }
        }
    }

    /// The signal that a look gives rise to, if it does to one.
    pub open spec fn order(self, look: Look) -> Option<Order> {
        match self.progress(look) {
            Progress::Pause { order } => order,
            Progress::Ended(_) => None,
        }
    }

    /// Where it stands after a look.
    pub open spec fn after(self, look: Look) -> Pressing {
        Pressing { escalated: self.escalated || self.order(look) is Some, ..self }
    }

    /// The signals that `looks` give rise to, one look after the other.
    pub open spec fn orders(self, looks: Seq<Look>) -> Seq<Order>
        decreases looks.len(),
    {
        if looks.len() == 0 {
            Seq::empty()
        } else {
            let later = self.after(looks[0]).orders(looks.drop_first());
            match self.order(looks[0]) {
                Some(order) => seq![order] + later,
                None => later,
            }
        }
    }

    /// Every signal that pressing `tenant` sends, where `looks` are the looks
    /// taken at it.
    pub open spec fn signals(tenant: Tenant, policy: Policy, looks: Seq<Look>) -> Seq<Order> {
        let (first, pressing) = Pressing::begun(tenant, policy);
        seq![first] + pressing.orders(looks)
    }

    /// Whether a look finds a tenant that a kill is meant for: it is still there,
    /// its time to leave politely is over, and the deadline has not passed.
    pub open spec fn lingers(self, look: Look) -> bool {
        &&& !self.is_gone(look)
        &&& self.policy.escalate_after matches Some(after) && nanos(after) <= look.waited
        &&& look.waited < nanos(self.policy.deadline)
    }

    /// Looks order a kill and nothing else, once where one of them finds a tenant
    /// that lingers, and not at all where none does or there is no kill left.
    proof fn lemma_orders(self, looks: Seq<Look>)
        ensures
            self.orders(looks) == (if !self.escalated && exists|i: int|
                0 <= i < looks.len() && self.lingers(#[trigger] looks[i]) {
                seq![Order::Kill(self.tenant.pid)]
            } else {
                Seq::<Order>::empty()
            }),
        decreases looks.len(),
    {
        if looks.len() > 0 {
            let next = self.after(looks[0]);
            let rest = looks.drop_first();
            next.lemma_orders(rest);
            assert forall|i: int| 0 <= i < rest.len() implies next.lingers(#[trigger] rest[i])
                == self.lingers(looks[i + 1]) by {}
            if self.order(looks[0]) is Some {
                assert(self.lingers(looks[0]));
                assert(next.orders(rest) =~= Seq::<Order>::empty());
            } else if !self.escalated {
                assert(!self.lingers(looks[0]));
                if exists|i: int| 0 <= i < looks.len() && self.lingers(#[trigger] looks[i]) {
                    let i = choose|i: int|
                        0 <= i < looks.len() && self.lingers(#[trigger] looks[i]);
                    assert(rest[i - 1] == looks[i]);
                }
            }
        }
    }

    /// Whoever presses a tenant asks it to leave first and once, before any look;
    /// then kills it at most once - exactly where a look finds it lingering after
    /// its time to leave politely and before the deadline - and never under a
    /// policy that does not escalate, or would only after the deadline; and
    /// signals nobody else.
    pub proof fn law_asked_once_and_first_and_killed_at_most_once(
        tenant: Tenant,
        policy: Policy,
        looks: Seq<Look>,
    )
        ensures
            ({
                let signals = Pressing::signals(tenant, policy, looks);
                let pressing = Pressing::begun(tenant, policy).1;
                let lingered = exists|i: int|
                    0 <= i < looks.len() && pressing.lingers(#[trigger] looks[i]);
                &&& signals.len() >= 1 && signals[0] == Order::Ask(tenant.pid)
                &&& signals.len() == (if lingered {
                    2nat
                } else {
                    1nat
                })
                &&& lingered ==> signals[1] == Order::Kill(tenant.pid)
                &&& forall|i: int|
                    0 <= i < signals.len() ==> (#[trigger] signals[i]).pid() == tenant.pid && (
                    signals[i] is Ask <==> i == 0)
                &&& (policy.escalate_after matches Some(after) ==> nanos(after) >= nanos(
                    policy.deadline,
                )) ==> !lingered
            }),
    {
        Pressing::begun(tenant, policy).1.lemma_orders(looks);
    }

    /// A kill is only ever ordered against a live process that nothing known
    /// tells apart from the tenant, once its time to leave politely is over and
    /// before the deadline, and no other signal follows from a look.
    pub proof fn law_only_the_tenant_is_killed(self, look: Look)
        requires
            self.order(look) is Some,
        ensures
            self.order(look) == Some(Order::Kill(self.tenant.pid)),
            look.live matches Some(live) && live.pid == self.tenant.pid && !(self.tenant.sameness(
                live,
            ) is Different),
            self.policy.escalate_after matches Some(after) && nanos(after) <= look.waited,
            look.waited < nanos(self.policy.deadline),
    {
    }

    /// Pressing ends with the first look at which the process is gone or the
    /// deadline has passed, whatever was seen before.
    pub proof fn law_pressing_ends(self, look: Look)
        ensures
            self.progress(look) is Ended <==> self.is_gone(look) || look.waited >= nanos(
                self.policy.deadline,
            ),
            self.after(look).tenant == self.tenant,
            self.after(look).policy == self.policy,
    {
    }
}

impl View for Press {
    type V = Pressing;

    closed spec fn view(&self) -> Pressing {
        Pressing { tenant: self.tenant, policy: self.policy, escalated: self.escalated }
    }
}

impl Press {
    /// Begin to press `tenant`: the order to ask it to leave, and the press that
    /// goes on from there.
    #[must_use]
    pub fn begin(tenant: Tenant, policy: Policy) -> (begun: (Order, Press))
        ensures
            (begun.0, begun.1@) == Pressing::begun(tenant, policy),
    {
        let order = Order::Ask(tenant.pid);
        (order, Press { tenant, policy, escalated: policy.escalate_after.is_none() })
    }

    /// The tenant being pressed.
    #[must_use]
    pub fn tenant(&self) -> (tenant: &Tenant)
        ensures
            *tenant == self@.tenant,
    {
        &self.tenant
    }

    /// How long to pause between two looks.
    #[must_use]
    pub fn poll(&self) -> (poll: Duration)
        ensures
            poll == self@.policy.poll,
    {
        self.policy.poll
    }

    /// What to do, given the process now behind the tenant's pid and how long
    /// ago the tenant was asked to leave.
    #[must_use]
    pub fn observe(&mut self, live: &Option<Tenant>, waited: Duration) -> (progress: Progress)
        ensures
            progress == old(self)@.progress(Look { live: *live, waited: nanos(waited) }),
            final(self)@ == old(self)@.after(Look { live: *live, waited: nanos(waited) }),
    {
        let gone: bool = match live {
            None => true,
            Some(live) => self.tenant.compare(live) == Sameness::Different,
        };
        if gone {
            return Progress::Ended(Pressed::Left);
        }
        if waited.as_nanos() >= self.policy.deadline.as_nanos() {
            return Progress::Ended(Pressed::Stubborn);
        }
        let due: bool = match self.policy.escalate_after {
            Some(after) => waited.as_nanos() >= after.as_nanos(),
            None => false,
        };
        if !self.escalated && due {
            self.escalated = true;
            Progress::Pause { order: Some(Order::Kill(self.tenant.pid)) }
        } else {
            Progress::Pause { order: None }
        }
    }
}

/// Only a tenant that its record proves, or one that a policy asks for although
/// nothing refutes it, is ever signalled.
pub proof fn law_only_a_verified_tenant_is_signalled(
    record: Record,
    policy: Policy,
    live: Option<Tenant>,
)
    ensures
        approach_to(record, policy, live) is Ok <==> (live matches Some(live) && {
            ||| record.tenant.sameness(live) is Same
            ||| record.tenant.sameness(live) is Inconclusive && policy.unconfirmed is Signal
        }),
{
}

/// An eviction that finds somebody to press begins by asking a live process of
/// the pid in the record, and goes on pressing the tenant of the record.
pub proof fn law_only_the_recorded_pid_is_signalled(
    record: Record,
    policy: Policy,
    live: Option<Tenant>,
)
    requires
        was_seen(record.tenant.pid, live),
        approach_to(record, policy, live) is Ok,
    ensures
        approach_to(record, policy, live)->Ok_0.0 == Order::Ask(record.tenant.pid),
        approach_to(record, policy, live)->Ok_0.1.tenant == record.tenant,
        live matches Some(live) && live.pid == record.tenant.pid && live.is_live(),
{
    law_what_is_seen_is_live(record.tenant.pid, live);
}

/// An anonymous tenant is only signalled where the choice is forced - one
/// process alone was seen to run from the image - and never the evictor itself.
/// Where several were, they are counted, each once.
pub proof fn law_a_bystander_is_spared(candidates: Seq<Tenant>, expected: PathBuf, mine: u32)
    requires
        were_seen(candidates, expected, mine),
    ensures
        sole_of(candidates) is Ok <==> candidates.len() == 1,
        sole_of(candidates) matches Ok(tenant) ==> tenant.is_candidate(expected, mine)
            && tenant.is_live() && tenant.pid != mine,
        sole_of(candidates) matches Err(AnonymousOutcome::Ambiguous { running }) ==> running
            == candidates.len() && running > 1 && told_apart(candidates),
{
    law_what_is_seen_runs_from_the_image(candidates, expected, mine);
}

/// An eviction by record goes by what is behind the pid: nobody is signalled
/// where nobody is there; the tenant of the record, under the very policy that
/// was given and beginning with a polite word to its pid, where the process there
/// is the recorded one, or may be and the policy does not mind; and otherwise
/// nobody, for the reason that the comparison gives.
pub proof fn law_an_eviction_goes_by_the_process_and_the_policy(
    record: Record,
    policy: Policy,
    live: Option<Tenant>,
    sameness: Sameness,
    approached: Result<(Order, Press), Outcome>,
)
    requires
        call_ensures(approach, (&record, &policy, &live), approached),
        live is Some ==> call_ensures(Tenant::compare, (&record.tenant, &live->0), sameness),
    ensures
        live is None ==> approached == Err::<(Order, Press), Outcome>(Outcome::AlreadyGone),
        approached is Ok <==> live is Some && (sameness is Same || sameness is Inconclusive
            && policy.unconfirmed is Signal),
        approached is Err && live is Some ==> approached == Err::<(Order, Press), Outcome>(
            Outcome::Refused(sameness),
        ),
        approached matches Ok((order, press)) ==> {
            &&& order == Order::Ask(record.tenant.pid)
            &&& press@.tenant == record.tenant
            &&& press@.policy == policy
            &&& press@.escalated == (policy.escalate_after is None)
        },
{
}

/// An eviction decides what is decided of the process that a look behind the
/// recorded pid finds, and nothing else.
pub proof fn law_an_eviction_decides_of_whom_it_sees(
    record: Record,
    policy: Policy,
    evicted: Result<(Order, Press), Outcome>,
)
    requires
        call_ensures(evict, (&record, &policy), evicted),
    ensures
        exists|live: Option<Tenant>| #[trigger]
            was_seen(record.tenant.pid, live) && forall|
                approached: Result<(Order, Press), Outcome>,
            | #[trigger]
                call_ensures(approach, (&record, &policy, &live), approached) ==> {
                    &&& evicted is Err ==> approached == evicted
                    &&& evicted is Ok ==> approached is Ok && approached->Ok_0.0 == evicted->Ok_0.0
                        && approached->Ok_0.1@ == evicted->Ok_0.1@
                },
        evicted matches Ok((order, press)) ==> order == Order::Ask(record.tenant.pid)
            && press@.tenant == record.tenant && press@.policy == policy && press@.escalated == (
        policy.escalate_after is None),
{
    let live = choose|live: Option<Tenant>| #[trigger]
        was_seen(record.tenant.pid, live) && match approach_to(record, policy, live) {
            Ok((first, pressing)) => evicted matches Ok((order, press)) && order == first && press@
                == pressing,
            Err(outcome) => evicted == Err::<(Order, Press), Outcome>(outcome),
        };
    assert(was_seen(record.tenant.pid, live));
}

/// The choice of whom to press is forced or not made: a candidate is chosen
/// exactly where it is the only one, and otherwise the refusal says that there is
/// none, or how many there are.
pub proof fn law_only_a_forced_choice_is_made(
    candidates: Vec<Tenant>,
    chosen: Result<Tenant, AnonymousOutcome>,
)
    requires
        call_ensures(sole, (candidates,), chosen),
    ensures
        candidates.len() == 0 <==> chosen == Err::<Tenant, AnonymousOutcome>(
            AnonymousOutcome::NoCandidate,
        ),
        candidates.len() == 1 <==> chosen is Ok,
        candidates.len() == 1 ==> chosen == Ok::<Tenant, AnonymousOutcome>(candidates@[0]),
        candidates.len() > 1 ==> chosen == Err::<Tenant, AnonymousOutcome>(
            AnonymousOutcome::Ambiguous { running: candidates.len() },
        ),
{
}

/// An anonymous eviction decides what is decided of what was seen to run from the
/// image, and presses the one that is chosen under the very policy that was
/// given, beginning with a polite word to its pid.
pub proof fn law_an_anonymous_eviction_decides_of_whom_it_sees(
    expected: PathBuf,
    mine: u32,
    policy: Policy,
    evicted: Result<(Order, Press), AnonymousOutcome>,
)
    requires
        call_ensures(evict_anonymous, (&expected, mine, &policy), evicted),
    ensures
        exists|candidates: Seq<Tenant>| #[trigger]
            were_seen(candidates, expected, mine) && {
                &&& candidates.len() == 0 <==> evicted == Err::<(Order, Press), AnonymousOutcome>(
                    AnonymousOutcome::NoCandidate,
                )
                &&& candidates.len() > 1 <==> evicted == Err::<(Order, Press), AnonymousOutcome>(
                    AnonymousOutcome::Ambiguous { running: candidates.len() as usize },
                )
                &&& candidates.len() == 1 <==> evicted is Ok
                &&& evicted is Ok ==> evicted->Ok_0.1@.tenant == candidates[0]
            },
        evicted matches Ok((order, press)) ==> {
            &&& order == Order::Ask(press@.tenant.pid)
            &&& press@.tenant.pid != mine
            &&& press@.tenant.image is Some && same_path(press@.tenant.image->0, expected)
            &&& press@.policy == policy
            &&& press@.escalated == (policy.escalate_after is None)
        },
{
    let candidates = choose|candidates: Seq<Tenant>| #[trigger]
        were_seen(candidates, expected, mine) && match sole_of(candidates) {
            Ok(tenant) => evicted matches Ok((order, press)) && (order, press@) == Pressing::begun(
                tenant,
                policy,
            ),
            Err(refusal) => evicted == Err::<(Order, Press), AnonymousOutcome>(refusal),
        };
    assert(were_seen(candidates, expected, mine));
    law_what_is_seen_runs_from_the_image(candidates, expected, mine);
}

impl Press {
    /// Pressing begins with a polite word to the tenant's pid, under the very
    /// policy that was given, with a kill in reserve exactly where the policy
    /// escalates.
    pub proof fn law_pressing_begins_with_a_polite_word(
        tenant: Tenant,
        policy: Policy,
        order: Order,
        press: Press,
    )
        requires
            call_ensures(Press::begin, (tenant, policy), (order, press)),
        ensures
            order == Order::Ask(tenant.pid),
            press@.tenant == tenant,
            press@.policy == policy,
            press@.escalated == (policy.escalate_after is None),
    {
    }

    /// A look ends the pressing where nobody is there any more or somebody else
    /// is, else where the deadline has passed, and otherwise orders a kill of the
    /// tenant's pid exactly where one is left and its time has come. It changes
    /// nothing but that a kill that was ordered is not left.
    pub proof fn law_a_look_at_a_tenant(
        before: Press,
        after: Press,
        live: Option<Tenant>,
        waited: Duration,
        sameness: Sameness,
        progress: Progress,
    )
        requires
            exists|press: &mut Press| #[trigger]
                call_ensures(Press::observe, (press, &live, waited), progress) && *press == before
                    && *final(press) == after,
            live is Some ==> call_ensures(Tenant::compare, (&before@.tenant, &live->0), sameness),
        ensures
            ({
                let gone = live is None || sameness is Different;
                let over = nanos(waited) >= nanos(before@.policy.deadline);
                let due = !before@.escalated && before@.policy.escalate_after is Some && nanos(
                    waited,
                ) >= nanos(before@.policy.escalate_after->0);
                &&& gone ==> progress == Progress::Ended(Pressed::Left)
                &&& !gone && over ==> progress == Progress::Ended(Pressed::Stubborn)
                &&& !gone && !over && due ==> progress == (Progress::Pause {
                    order: Some(Order::Kill(before@.tenant.pid)),
                })
                &&& !gone && !over && !due ==> progress == (Progress::Pause { order: None })
                &&& after@.tenant == before@.tenant
                &&& after@.policy == before@.policy
                &&& after@.escalated == (before@.escalated || (!gone && !over && due))
            }),
    {
    }

    /// A tenant whose eviction by record was begun and that is still there when
    /// the policy says so, and the deadline has not passed, is killed at the
    /// first look that finds it.
    pub proof fn law_a_lingering_tenant_is_killed_when_the_policy_says(
        record: Record,
        policy: Policy,
        live: Option<Tenant>,
        order: Order,
        before: Press,
        after: Press,
        still: Tenant,
        waited: Duration,
        sameness: Sameness,
        progress: Progress,
    )
        requires
            call_ensures(approach, (&record, &policy, &live), Ok((order, before))),
            exists|press: &mut Press| #[trigger]
                call_ensures(Press::observe, (press, &Some(still), waited), progress) && *press
                    == before && *final(press) == after,
            call_ensures(Tenant::compare, (&record.tenant, &still), sameness),
            !(sameness is Different),
            policy.escalate_after is Some,
            nanos(policy.escalate_after->0) <= nanos(waited) < nanos(policy.deadline),
        ensures
            order == Order::Ask(record.tenant.pid),
            progress == (Progress::Pause { order: Some(Order::Kill(record.tenant.pid)) }),
            after@.escalated,
    {
    }

    /// A press tells whom it presses and how long to pause by the policy it goes
    /// by.
    pub proof fn law_a_press_tells_whom_it_presses(self, tenant: Tenant, poll: Duration)
        requires
            call_ensures(Press::tenant, (&self,), &tenant),
            call_ensures(Press::poll, (&self,), poll),
        ensures
            tenant == self@.tenant,
            poll == self@.policy.poll,
    {
    }
}

impl Pressed {
    /// An eviction ends as its pressing did, whichever way it began.
    pub proof fn law_an_eviction_ends_as_its_pressing_did(
        self,
        outcome: Outcome,
        anonymous: AnonymousOutcome,
    )
        requires
            call_ensures(Pressed::outcome, (self,), outcome),
            call_ensures(Pressed::anonymous_outcome, (self,), anonymous),
        ensures
            self is Left <==> outcome is Left,
            self is Left <==> anonymous is Left,
            self is Stubborn <==> outcome is Stubborn,
            self is Stubborn <==> anonymous is Stubborn,
    {
    }
}

} // verus!
