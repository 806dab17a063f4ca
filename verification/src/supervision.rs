//! A loop over the verdict that probes the role, starts the helper, waits and
//! backs off.
//!
//! The loop itself belongs to the caller, who can spawn, wait and sleep. A
//! [`Supervisor`] decides what each turn of it does.

use crate::identity::Run;
use crate::record::Record;
use crate::role::{Occupancy, Role};
use crate::text::{decimal, push_decimal};
use crate::time::{nanos, times, MAX_NANOS};
use crate::verdict::{verdict, verdict_on, Verdict};
use std::fmt::Write;
use std::io;
use std::time::Duration;
use vstd::prelude::*;

verus! {

/// How long to wait before starting a helper again.
#[derive(Clone, Copy, Debug, PartialEq, Eq)]
pub struct Restart {
    /// Delay after a helper that had been running exits.
    pub base: Duration,
    /// Ceiling for a helper that keeps failing at startup.
    pub ceiling: Duration,
    /// How long a run must last to count as "it worked, then it stopped"
    /// rather than "it cannot start", which is what resets the backoff.
    pub healthy_after: Duration,
}

impl Default for Restart {
    fn default() -> (restart: Restart)
        ensures
            nanos(restart.base) == 2_000_000_000,
            nanos(restart.ceiling) == 60_000_000_000,
            nanos(restart.healthy_after) == 30_000_000_000,
    {
        Restart {
            base: Duration::from_secs(2),
            ceiling: Duration::from_secs(60),
            healthy_after: Duration::from_secs(30),
        }
    }
}

/// Two to the power `n`.
pub open spec fn doublings(n: nat) -> nat
    decreases n,
{
    if n == 0 {
        1
    } else {
        2 * doublings((n - 1) as nat)
    }
}

impl Restart {
    /// The delay that follows `previous` after a run of `ran_for`, all in
    /// nanoseconds.
    pub open spec fn delay_after(self, previous: nat, ran_for: nat) -> nat {
        if ran_for >= nanos(self.healthy_after) {
            nanos(self.base)
        } else if 2 * previous <= nanos(self.ceiling) {
            2 * previous
        } else {
            nanos(self.ceiling)
        }
    }

    /// The delay that follows `previous` after one run after the other.
    pub open spec fn delay_after_all(self, previous: nat, runs: Seq<nat>) -> nat
        decreases runs.len(),
    {
        if runs.len() == 0 {
            previous
        } else {
            self.delay_after(self.delay_after_all(previous, runs.drop_last()), runs.last())
        }
    }

    /// The delay before the next attempt, given the previous delay and how long
    /// the run that just ended lasted.
    #[must_use]
    pub fn next_delay(&self, previous: Duration, ran_for: Duration) -> (delay: Duration)
        requires
            nanos(ran_for) >= nanos(self.healthy_after) || 2 * nanos(previous) <= MAX_NANOS,
        ensures
            nanos(delay) == self.delay_after(nanos(previous), nanos(ran_for)),
    {
        if ran_for.as_nanos() >= self.healthy_after.as_nanos() {
            self.base
        } else {
            let doubled = times(previous, 2);
            if doubled.as_nanos() <= self.ceiling.as_nanos() {
                doubled
            } else {
                self.ceiling
            }
        }
    }

    /// The delay before the next attempt, as [`Restart::next_delay`] has it, or
    /// nothing where the previous delay is too long to be doubled.
    #[must_use]
    pub fn checked_next_delay(&self, previous: Duration, ran_for: Duration) -> (delay: Option<
        Duration,
    >)
        ensures
            delay is None <==> nanos(ran_for) < nanos(self.healthy_after) && 2 * nanos(previous)
                > MAX_NANOS,
            delay matches Some(delay) ==> nanos(delay) == self.delay_after(
                nanos(previous),
                nanos(ran_for),
            ),
    {
        let lasted: bool = ran_for.as_nanos() >= self.healthy_after.as_nanos();
        if lasted || previous.as_nanos() <= MAX_NANOS / 2 {
            Some(self.next_delay(previous, ran_for))
        } else {
            None
        }
    }

    /// A helper that dies at startup is retried ever more slowly: each delay is
    /// at least the one before it, and twice that until the ceiling is reached.
    pub proof fn law_a_failing_helper_is_retried_ever_more_slowly(self, previous: nat, ran_for: nat)
        requires
            ran_for < nanos(self.healthy_after),
            previous <= nanos(self.ceiling),
        ensures
            previous <= self.delay_after(previous, ran_for) <= nanos(self.ceiling),
            2 * previous <= nanos(self.ceiling) ==> self.delay_after(previous, ran_for) == 2
                * previous,
    {
    }

    /// Over any number of runs that end at startup, the delay doubles with each
    /// until it is at the ceiling, and stays there.
    pub proof fn law_backoff_doubles_up_to_the_ceiling(self, previous: nat, runs: Seq<nat>)
        requires
            runs.len() > 0,
            forall|i: int| 0 <= i < runs.len() ==> #[trigger] runs[i] < nanos(self.healthy_after),
        ensures
            self.delay_after_all(previous, runs) == (if previous * doublings(runs.len()) <= nanos(
                self.ceiling,
            ) {
                previous * doublings(runs.len())
            } else {
                nanos(self.ceiling)
            }),
        decreases runs.len(),
    {
        reveal_with_fuel(Restart::delay_after_all, 2);
        reveal_with_fuel(doublings, 2);
        assert(runs.last() < nanos(self.healthy_after));
        let n = (runs.len() - 1) as nat;
        assert(previous * doublings(runs.len()) == 2 * (previous * doublings(n)))
            by (nonlinear_arith)
            requires
                doublings(runs.len()) == 2 * doublings(n),
        ;
        if runs.len() > 1 {
            assert forall|i: int| 0 <= i < runs.drop_last().len() implies #[trigger] runs.drop_last()[i]
                < nanos(self.healthy_after) by {
                assert(runs[i] < nanos(self.healthy_after));
            }
            self.law_backoff_doubles_up_to_the_ceiling(previous, runs.drop_last());
        } else {
            assert(runs.drop_last() == Seq::<nat>::empty());
            assert(doublings(n) == 1);
            assert(previous * doublings(n) == previous) by (nonlinear_arith)
                requires
                    doublings(n) == 1,
            ;
        }
    }

    /// A run that lasted resets the backoff, whatever came before it.
    pub proof fn law_a_run_that_lasted_resets_the_backoff(self, previous: nat, runs: Seq<nat>)
        requires
            runs.len() > 0,
            runs.last() >= nanos(self.healthy_after),
        ensures
            self.delay_after_all(previous, runs) == nanos(self.base),
    {
    }
}

/// What [`std::fmt::Debug`] of a [`Duration`] writes with one digit behind the
/// point, given the nanoseconds.
pub uninterp spec fn rounded_words(nanoseconds: nat) -> Seq<char>;

/// [`std::fmt::Debug`] of [`Duration`] with one digit behind the point: it
/// depends on the length of the span alone.
#[verifier::external_body]
fn rounded(span: Duration) -> (words: String)
    ensures
        words@ == rounded_words(nanos(span)),
{
    format!("{span:.1?}")
}

/// [`std::fmt::Display`] of [`std::io::Error`]. What it writes rests on more than
/// the error - an error of the operating system is put in words by the system, in
/// its language - so nothing is said of it.
#[verifier::external_body]
fn said_of(error: &io::Error) -> (said: String) {
    let mut said = String::new();
    let _ = write!(said, "{error}");
    said
}

/// How a helper exited, as the operating system tells it.
#[derive(Clone, Copy, Debug, PartialEq, Eq)]
pub struct ExitStatus<'a> {
    /// What it exited with, unless it was ended by a signal.
    pub code: Option<i32>,
    /// The signal that ended it, if one did.
    pub signal: Option<i32>,
    /// All of it in words.
    pub words: &'a str,
}

/// What a [`Supervisor`] just did, for the caller to log.
///
/// Reporting rather than logging keeps this crate free of a logging
/// dependency, and keeps the choice of level and format with the application.
#[derive(Clone, Copy, Debug)]
pub enum Event<'a> {
    /// The role is filled by someone who should be left alone for now.
    Occupied(&'a Occupancy),
    /// A tenant from a finished run is in the way.
    Superseded(&'a Record),
    /// Someone is in the way who never identified themselves.
    SupersededAnonymously,
    /// A helper was started.
    Started(u32),
    /// The helper exited after `ran_for`.
    Exited {
        /// How it exited.
        status: ExitStatus<'a>,
        /// How long it ran.
        ran_for: Duration,
    },
    /// The helper could not be started at all.
    SpawnFailed(&'a io::Error),
    /// The helper was started, but could not be waited for.
    WaitFailed(&'a io::Error),
    /// Sleeping before the next attempt.
    BackingOff(Duration),
}

impl<'a> Event<'a> {
    /// The error that the event carries, if it carries one.
    pub open spec fn error(self) -> Option<&'a io::Error> {
        match self {
            Event::SpawnFailed(error) => Some(error),
            Event::WaitFailed(error) => Some(error),
            _ => None,
        }
    }

    /// The event in words, where `said` is what the error that it carries says.
    pub open spec fn words(self, said: Seq<char>) -> Seq<char> {
        match self {
            Event::Occupied(occupancy) => "role "@ + occupancy.words(),
            Event::Superseded(record) => "role held by a finished run: "@ + record.words(),
            Event::SupersededAnonymously => "role held by a tenant that never identified itself"@,
            Event::Started(pid) => "helper started, pid "@ + decimal(pid as nat),
            Event::Exited { status, ran_for } => "helper exited "@ + status.words@ + " after "@
                + rounded_words(nanos(ran_for)),
            Event::SpawnFailed(_) => "helper could not be started: "@ + said,
            Event::WaitFailed(_) => "helper could not be waited for: "@ + said,
            Event::BackingOff(delay) => "waiting "@ + rounded_words(nanos(delay))
                + " before the next attempt"@,
        }
    }

    /// Whether `said` is what the error that the event carries was heard to say.
    /// One that carries none says nothing.
    pub closed spec fn was_said(self, said: Seq<char>) -> bool {
        match self.error() {
            Some(error) => exists|heard: String| #[trigger]
                call_ensures(said_of, (error,), heard) && said == heard@,
            None => said == Seq::<char>::empty(),
        }
    }

    /// A ready-made log line, so reporting costs one closure and no logging
    /// dependency.
    #[must_use]
    pub fn describe(&self) -> (words: String)
        ensures
            exists|said: Seq<char>| #[trigger] self.was_said(said) && words@ == self.words(said),
            self.error() is None ==> words@ == self.words(Seq::empty()),
    {
        let error: Option<&io::Error> = match *self {
            Event::SpawnFailed(error) => Some(error),
            Event::WaitFailed(error) => Some(error),
            _ => None,
        };
        let said = match error {
            Some(error) => said_of(error),
            None => String::new(),
        };
        assert(self.was_said(said@));
        self.describe_saying(said.as_str())
    }

    /// The log line, where `said` is what the error that the event carries says.
    #[must_use]
    pub fn describe_saying(&self, said: &str) -> (words: String)
        ensures
            words@ == self.words(said@),
    {
        match *self {
            Event::Occupied(occupancy) => {
                let mut words = String::from_str("role ");
                words.append(occupancy.describe().as_str());
                words
            },
            Event::Superseded(record) => {
                let mut words = String::from_str("role held by a finished run: ");
                words.append(record.describe().as_str());
                words
            },
            Event::SupersededAnonymously => {
                String::from_str("role held by a tenant that never identified itself")
            },
            Event::Started(pid) => {
                let mut words = String::from_str("helper started, pid ");
                push_decimal(&mut words, pid as u64);
                words
            },
            Event::Exited { status, ran_for } => {
                let mut words = String::from_str("helper exited ");
                words.append(status.words);
                words.append(" after ");
                words.append(rounded(ran_for).as_str());
                words
            },
            Event::SpawnFailed(_) => {
                let mut words = String::from_str("helper could not be started: ");
                words.append(said);
                words
            },
            Event::WaitFailed(_) => {
                let mut words = String::from_str("helper could not be waited for: ");
                words.append(said);
                words
            },
            Event::BackingOff(delay) => {
                let mut words = String::from_str("waiting ");
                words.append(rounded(delay).as_str());
                words.append(" before the next attempt");
                words
            },
        }
    }
}

/// What one turn of the loop is to do.
#[derive(Clone, Copy, Debug)]
pub enum Turn<'a> {
    /// Start the helper.
    Start,
    /// Report the event and look again after the pause.
    Pause {
        /// What to report.
        event: Event<'a>,
        /// How long to pause.
        pause: Duration,
    },
}

/// What follows an attempt to start the helper.
#[derive(Clone, Copy, Debug, PartialEq, Eq, Structural)]
pub enum Next {
    /// Wait for the helper to exit.
    AwaitExit,
    /// Back off.
    BackOff,
}

/// What to report of an attempt to start the helper, and what follows.
pub open spec fn after_launch<'a>(launch: Result<u32, &'a io::Error>) -> (Event<'a>, Next) {
    match launch {
        Ok(pid) => (Event::Started(pid), Next::AwaitExit),
        Err(error) => (Event::SpawnFailed(error), Next::BackOff),
    }
}

/// What to report of a helper that was waited for, and what follows.
pub open spec fn after_exit<'a>(exit: Result<ExitStatus<'a>, &'a io::Error>, ran_for: Duration) -> (
    Event<'a>,
    Next,
) {
    match exit {
        Ok(status) => (Event::Exited { status, ran_for }, Next::BackOff),
        Err(error) => (Event::WaitFailed(error), Next::BackOff),
    }
}

/// A helper is reported as one that could not be started exactly where it could
/// not be, and never once it was; and every attempt ends by backing off.
pub proof fn law_a_started_helper_did_start<'a>(
    launch: Result<u32, &'a io::Error>,
    exit: Result<ExitStatus<'a>, &'a io::Error>,
    ran_for: Duration,
)
    ensures
        after_launch(launch).0 is SpawnFailed <==> launch is Err,
        after_launch(launch).0 is Started <==> after_launch(launch).1 is AwaitExit,
        !(after_launch(launch).1 is AwaitExit) ==> after_launch(launch).1 is BackOff,
        !(after_exit(exit, ran_for).0 is SpawnFailed),
        after_exit(exit, ran_for).1 is BackOff,
{
}

/// Drives one role: waits while it is filled, starts a helper when it is free,
/// and backs off when that helper will not stay up.
///
/// Eviction is deliberately not automatic - the [`Event::Superseded`] report
/// hands the caller the record, together with everything needed to verify the
/// pid before signalling it (see [`crate::eviction`]).
#[derive(Debug)]
pub struct Supervisor {
    role: Role,
    mine: Run,
    grace: Duration,
    poll: Duration,
    restart: Restart,
    delay: Duration,
    waiting_since: Option<Duration>,
}

/// What a [`Supervisor`] goes by.
pub struct Supervision {
    pub role: Role,
    pub mine: Run,
    pub grace: nat,
    pub poll: nat,
    pub restart: Restart,
    /// The delay before the last attempt, or the first one if there was none.
    pub delay: nat,
    /// When it first saw the unidentified tenant that it saw last, unless what
    /// it saw last was something else.
    pub waiting_since: Option<nat>,
}

impl Supervision {
    /// How long it has been waiting for an unidentified tenant to leave.
    pub open spec fn waited(self, now: nat) -> nat {
        match self.waiting_since {
            Some(since) if now >= since => (now - since) as nat,
            _ => 0,
        }
    }

    /// What it makes of `occupancy`.
    pub open spec fn verdict(self, occupancy: Occupancy, now: nat) -> Verdict {
        verdict_on(occupancy, self.mine, self.waited(now), self.grace)
    }

    /// Where it stands after a turn: the wait begins where an unidentified tenant
    /// is first seen, and is over where anything else is.
    pub open spec fn after(self, occupancy: Occupancy, now: nat) -> Supervision {
        Supervision {
            waiting_since: match occupancy {
                Occupancy::HeldAnonymously => match self.waiting_since {
                    Some(since) => Some(since),
                    None => Some(now),
                },
                _ => None,
            },
            ..self
        }
    }

    /// Where it stands after an unidentified tenant was seen at each of `times`.
    pub open spec fn after_sights(self, times: Seq<nat>) -> Supervision
        decreases times.len(),
    {
        if times.len() == 0 {
            self
        } else {
            self.after_sights(times.drop_last()).after(Occupancy::HeldAnonymously, times.last())
        }
    }

    /// Looking again at an unidentified tenant does not start the wait anew.
    pub proof fn law_a_wait_is_not_restarted(self, times: Seq<nat>)
        requires
            self.waiting_since is Some,
        ensures
            self.after_sights(times) == self,
        decreases times.len(),
    {
        if times.len() > 0 {
            self.law_a_wait_is_not_restarted(times.drop_last());
        }
    }

    /// An unidentified tenant is left alone for a grace period of its own and no
    /// longer. After a turn that saw anything else, it is waited for when it is
    /// first seen, unless there is no grace to give, and counts as one that will
    /// never leave from the moment the grace period is over, however often it
    /// was looked at in between.
    pub proof fn law_grace_is_counted_from_the_first_sight(
        self,
        before: Occupancy,
        earlier: nat,
        seen: nat,
        between: Seq<nat>,
        now: nat,
    )
        requires
            !(before is HeldAnonymously),
            self.grace > 0,
            seen <= now,
        ensures
            self.after(before, earlier).verdict(Occupancy::HeldAnonymously, seen) is Wait,
            self.after(before, earlier).after(
                Occupancy::HeldAnonymously,
                seen,
            ).after_sights(between).verdict(Occupancy::HeldAnonymously, now) is EvictAnonymous
                <==> now - seen >= self.grace,
    {
        let first = self.after(before, earlier).after(Occupancy::HeldAnonymously, seen);
        first.law_a_wait_is_not_restarted(between);
    }

    /// The same holds of a supervisor that has seen nothing yet.
    pub proof fn law_grace_is_counted_from_the_very_first_sight(
        self,
        seen: nat,
        between: Seq<nat>,
        now: nat,
    )
        requires
            self.waiting_since is None,
            self.grace > 0,
            seen <= now,
        ensures
            self.verdict(Occupancy::HeldAnonymously, seen) is Wait,
            self.after(Occupancy::HeldAnonymously, seen).after_sights(between).verdict(
                Occupancy::HeldAnonymously,
                now,
            ) is EvictAnonymous <==> now - seen >= self.grace,
    {
        self.after(Occupancy::HeldAnonymously, seen).law_a_wait_is_not_restarted(between);
    }
}

impl View for Supervisor {
    type V = Supervision;

    closed spec fn view(&self) -> Supervision {
        Supervision {
            role: self.role,
            mine: self.mine,
            grace: nanos(self.grace),
            poll: nanos(self.poll),
            restart: self.restart,
            delay: nanos(self.delay),
            waiting_since: match self.waiting_since {
                Some(since) => Some(nanos(since)),
                None => None,
            },
        }
    }
}

impl Supervisor {
    /// Supervise `role` on behalf of run `mine`.
    #[must_use]
    pub fn new(role: Role, mine: Run) -> (supervisor: Supervisor)
        ensures
            supervisor@.role == role,
            supervisor@.mine == mine,
            supervisor@.grace == 15_000_000_000,
            supervisor@.poll == 500_000_000,
            nanos(supervisor@.restart.base) == 2_000_000_000,
            nanos(supervisor@.restart.ceiling) == 60_000_000_000,
            nanos(supervisor@.restart.healthy_after) == 30_000_000_000,
            supervisor@.delay == 2_000_000_000,
            supervisor@.waiting_since is None,
    {
        let restart = Restart::default();
        Supervisor {
            role,
            mine,
            grace: Duration::from_secs(15),
            poll: Duration::from_millis(500),
            restart,
            delay: restart.base,
            waiting_since: None,
        }
    }

    /// How long an unidentified tenant is left alone before it counts as one
    /// that will never leave on its own.
    #[must_use]
    pub fn grace(self, grace: Duration) -> (supervisor: Supervisor)
        ensures
            supervisor@ == (Supervision { grace: nanos(grace), ..self@ }),
    {
        let mut supervisor = self;
        supervisor.grace = grace;
        supervisor
    }

    /// How often to look again while the role is filled.
    #[must_use]
    pub fn poll(self, poll: Duration) -> (supervisor: Supervisor)
        ensures
            supervisor@ == (Supervision { poll: nanos(poll), ..self@ }),
    {
        let mut supervisor = self;
        supervisor.poll = poll;
        supervisor
    }

    /// The restart policy for a helper that exits.
    #[must_use]
    pub fn restart(self, restart: Restart) -> (supervisor: Supervisor)
        ensures
            supervisor@ == (Supervision { restart, delay: nanos(restart.base), ..self@ }),
    {
        let mut supervisor = self;
        supervisor.restart = restart;
        supervisor.delay = restart.base;
        supervisor
    }

    /// The role being supervised.
    #[must_use]
    pub fn role(&self) -> (role: &Role)
        ensures
            *role == self@.role,
    {
        &self.role
    }

    /// The delay before the last attempt, or before the first one if there was
    /// none.
    #[must_use]
    pub fn delay(&self) -> (delay: Duration)
        ensures
            nanos(delay) == self@.delay,
    {
        self.delay
    }

    /// What to do about the role, given who holds it.
    ///
    /// `now` is the time passed since some moment that stays the same for the
    /// life of the supervisor.
    #[must_use]
    pub fn tick<'a>(&mut self, occupancy: &'a Occupancy, now: Duration) -> (turn: Turn<'a>)
        ensures
            final(self)@ == old(self)@.after(*occupancy, nanos(now)),
            match old(self)@.verdict(*occupancy, nanos(now)) {
                Verdict::Start => turn is Start,
                Verdict::Wait => turn matches Turn::Pause { event, pause } && event
                    == Event::Occupied(occupancy) && nanos(pause) == old(self)@.poll,
                Verdict::Evict(record) => turn matches Turn::Pause { event, pause } && event
                    == Event::Superseded(&record) && nanos(pause) == old(self)@.poll,
                Verdict::EvictAnonymous => turn matches Turn::Pause { event, pause }
                    && event is SupersededAnonymously && nanos(pause) == old(self)@.poll,
            },
    {
        let waited = match self.waiting_since {
            Some(since) => now.saturating_sub(since),
            None => Duration::from_secs(0),
        };
        self.waiting_since = match occupancy {
            Occupancy::HeldAnonymously => match self.waiting_since {
                Some(since) => Some(since),
                None => Some(now),
            },
            _ => None,
        };
        match verdict(occupancy, self.mine, waited, self.grace) {
            Verdict::Start => Turn::Start,
            Verdict::Wait => {
                Turn::Pause { event: Event::Occupied(occupancy), pause: self.poll }
            },
            _ => {
                let event = match occupancy {
                    Occupancy::HeldBy(record) => Event::Superseded(record),
                    _ => Event::SupersededAnonymously,
                };
                Turn::Pause { event, pause: self.poll }
            },
        }
    }

    /// What to report of an attempt to start the helper - its pid, or why it could
    /// not be started - and what to do next: only a helper that was started is
    /// waited for.
    #[must_use]
    pub fn start<'a>(launch: Result<u32, &'a io::Error>) -> (step: (Event<'a>, Next))
        ensures
            step == after_launch(launch),
    {
        match launch {
            Ok(pid) => (Event::Started(pid), Next::AwaitExit),
            Err(error) => (Event::SpawnFailed(error), Next::BackOff),
        }
    }

    /// What to report of a helper that was waited for - how it exited, or why it
    /// could not be waited for - and what to do next: either way, back off.
    #[must_use]
    pub fn exited<'a>(exit: Result<ExitStatus<'a>, &'a io::Error>, ran_for: Duration) -> (step: (
        Event<'a>,
        Next,
    ))
        ensures
            step == after_exit(exit, ran_for),
    {
        match exit {
            Ok(status) => (Event::Exited { status, ran_for }, Next::BackOff),
            Err(error) => (Event::WaitFailed(error), Next::BackOff),
        }
    }

    /// How long to back off after an attempt to start the helper that was over
    /// after `ran_for`, however it ended. The delay is also what to report. There
    /// is none, and nothing changes, where the delay before is too long to be
    /// doubled.
    #[must_use]
    pub fn back_off(&mut self, ran_for: Duration) -> (event: Option<Event<'static>>)
        ensures
            event is None <==> nanos(ran_for) < nanos(old(self)@.restart.healthy_after) && 2
                * old(self)@.delay > MAX_NANOS,
            match event {
                Some(event) => {
                    &&& final(self)@ == (Supervision {
                        delay: old(self)@.restart.delay_after(old(self)@.delay, nanos(ran_for)),
                        ..old(self)@
                    })
                    &&& event matches Event::BackingOff(delay) && nanos(delay)
                        == final(self)@.delay
                },
                None => final(self)@ == old(self)@,
            },
    {
        match self.restart.checked_next_delay(self.delay, ran_for) {
            Some(delay) => {
                self.delay = delay;
                Some(Event::BackingOff(delay))
            },
            None => None,
        }
    }
}

impl Restart {
    /// A run that lasted is followed by the base delay, and one that did not by
    /// twice the delay before it, or by the ceiling where that is less. Both ways
    /// to ask agree, and the careful one has no answer exactly where a delay
    /// cannot be doubled.
    pub proof fn law_a_delay_is_reset_or_doubled(
        self,
        previous: Duration,
        ran_for: Duration,
        delay: Duration,
        checked: Option<Duration>,
    )
        requires
            call_ensures(Restart::checked_next_delay, (&self, previous, ran_for), checked),
            checked is Some ==> call_ensures(
                Restart::next_delay,
                (&self, previous, ran_for),
                delay,
            ),
        ensures
            ({
                let lasted = nanos(ran_for) >= nanos(self.healthy_after);
                let doubled = 2 * nanos(previous);
                &&& checked is None <==> !lasted && doubled > MAX_NANOS
                &&& checked is Some ==> {
                    &&& nanos(checked->0) == nanos(delay)
                    &&& lasted ==> nanos(delay) == nanos(self.base)
                    &&& !lasted && doubled <= nanos(self.ceiling) ==> nanos(delay) == doubled
                    &&& !lasted && doubled >= nanos(self.ceiling) ==> nanos(delay) == nanos(
                        self.ceiling,
                    )
                }
            }),
    {
    }
}

/// One thing that happens to a supervisor.
pub enum Step {
    /// A turn that finds the role as it is, at some time.
    Tick(Occupancy, nat),
    /// An attempt to start the helper that was over after that long.
    BackOff(nat),
}

impl Supervision {
    /// Where it stands after an attempt to start the helper that was over after
    /// `ran_for`.
    pub open spec fn backed_off(self, ran_for: nat) -> Supervision {
        Supervision { delay: self.restart.delay_after(self.delay, ran_for), ..self }
    }

    /// Where it stands after one step after the other.
    pub open spec fn after_steps(self, steps: Seq<Step>) -> Supervision
        decreases steps.len(),
    {
        if steps.len() == 0 {
            self
        } else {
            let before = self.after_steps(steps.drop_last());
            match steps.last() {
                Step::Tick(occupancy, now) => before.after(occupancy, now),
                Step::BackOff(ran_for) => before.backed_off(ran_for),
            }
        }
    }

    /// How many of `steps` are attempts to start the helper.
    pub open spec fn attempts(steps: Seq<Step>) -> nat
        decreases steps.len(),
    {
        if steps.len() == 0 {
            0
        } else {
            Self::attempts(steps.drop_last()) + (if steps.last() is BackOff {
                1nat
            } else {
                0nat
            })
        }
    }

    /// Whatever a supervisor sees and however often its helper dies, it goes on
    /// supervising the same role for the same run by the same rules; and a helper
    /// that keeps dying at startup is retried ever more slowly, with any turns in
    /// between: after so many attempts the delay has doubled as often, up to the
    /// ceiling.
    pub proof fn law_turns_do_not_touch_the_backoff(self, steps: Seq<Step>)
        requires
            forall|i: int|
                0 <= i < steps.len() ==> (#[trigger] steps[i] matches Step::BackOff(ran_for)
                    ==> ran_for < nanos(self.restart.healthy_after)),
        ensures
            self.after_steps(steps).role == self.role,
            self.after_steps(steps).mine == self.mine,
            self.after_steps(steps).grace == self.grace,
            self.after_steps(steps).poll == self.poll,
            self.after_steps(steps).restart == self.restart,
            Self::attempts(steps) == 0 ==> self.after_steps(steps).delay == self.delay,
            Self::attempts(steps) > 0 ==> self.after_steps(steps).delay == (if self.delay
                * doublings(Self::attempts(steps)) <= nanos(self.restart.ceiling) {
                self.delay * doublings(Self::attempts(steps))
            } else {
                nanos(self.restart.ceiling)
            }),
        decreases steps.len(),
    {
        if steps.len() > 0 {
            let rest = steps.drop_last();
            let n = Self::attempts(rest);
            assert forall|i: int| 0 <= i < rest.len() implies (#[trigger] rest[i] matches Step::BackOff(
                ran_for,
            ) ==> ran_for < nanos(self.restart.healthy_after)) by {
                assert(rest[i] == steps[i]);
            }
            self.law_turns_do_not_touch_the_backoff(rest);
            assert(steps[steps.len() - 1] == steps.last());
            reveal_with_fuel(doublings, 2);
            assert(self.delay * doublings(n + 1) == 2 * (self.delay * doublings(n)))
                by (nonlinear_arith)
                requires
                    doublings(n + 1) == 2 * doublings(n),
            ;
            assert(n == 0 ==> self.delay * doublings(n) == self.delay) by (nonlinear_arith)
                requires
                    n == 0 ==> doublings(n) == 1,
            ;
        }
    }
}

impl Supervisor {
    /// A turn changes nothing but the wait for an unidentified tenant, whatever it
    /// finds: that wait begins where there is none yet and one is seen, goes on
    /// while one is seen, and is over where anything else is.
    pub proof fn law_a_turn_changes_nothing_but_the_wait<'a>(
        before: Supervisor,
        after: Supervisor,
        occupancy: &'a Occupancy,
        now: Duration,
        turn: Turn<'a>,
    )
        requires
            exists|supervisor: &mut Supervisor| #[trigger]
                call_ensures(Supervisor::tick, (supervisor, occupancy, now), turn) && *supervisor
                    == before && *final(supervisor) == after,
        ensures
            after@.role == before@.role,
            after@.mine == before@.mine,
            after@.grace == before@.grace,
            after@.poll == before@.poll,
            after@.restart == before@.restart,
            after@.delay == before@.delay,
            !(*occupancy is HeldAnonymously) ==> after@.waiting_since is None,
            *occupancy is HeldAnonymously && before@.waiting_since is None ==> after@.waiting_since
                == Some(nanos(now)),
            *occupancy is HeldAnonymously && before@.waiting_since is Some ==> after@.waiting_since
                == before@.waiting_since,
    {
    }

    /// A turn starts the helper exactly where the role is free. Otherwise it
    /// pauses as long as it is told to, and reports a tenant of its own run as one
    /// to be left alone, a tenant of another run as superseded, by its very
    /// record, and an unidentified one as superseded exactly where the grace
    /// period is over.
    pub proof fn law_a_turn_reports_what_it_finds<'a>(
        before: Supervisor,
        after: Supervisor,
        occupancy: &'a Occupancy,
        now: Duration,
        turn: Turn<'a>,
    )
        requires
            exists|supervisor: &mut Supervisor| #[trigger]
                call_ensures(Supervisor::tick, (supervisor, occupancy, now), turn) && *supervisor
                    == before && *final(supervisor) == after,
        ensures
            turn is Start <==> *occupancy is Free,
            turn matches Turn::Pause { pause, .. } ==> nanos(pause) == before@.poll,
            *occupancy matches Occupancy::HeldBy(record) ==> {
                &&& record.identity.run == before@.mine ==> turn->event == Event::Occupied(
                    occupancy,
                )
                &&& record.identity.run != before@.mine ==> turn->event == Event::Superseded(&record)
            },
            *occupancy is HeldAnonymously ==> {
                let waited = match before@.waiting_since {
                    Some(since) => nanos(now) - since,
                    None => 0,
                };
                let over = waited >= before@.grace || before@.grace == 0;
                &&& over ==> turn->event == Event::SupersededAnonymously
                &&& !over ==> turn->event == Event::Occupied(occupancy)
            },
    {
    }

    /// Backing off changes nothing but the delay, which is reset after a run that
    /// lasted and doubled up to the ceiling after one that did not, and is what is
    /// reported; where it cannot be doubled, nothing is, and nothing changes.
    pub proof fn law_backing_off_changes_nothing_but_the_delay(
        before: Supervisor,
        after: Supervisor,
        ran_for: Duration,
        event: Option<Event<'static>>,
    )
        requires
            exists|supervisor: &mut Supervisor| #[trigger]
                call_ensures(Supervisor::back_off, (supervisor, ran_for), event) && *supervisor
                    == before && *final(supervisor) == after,
        ensures
            after@ == (Supervision { delay: after@.delay, ..before@ }),
            event is None <==> nanos(ran_for) < nanos(before@.restart.healthy_after) && 2
                * before@.delay > MAX_NANOS,
            event is None ==> after@.delay == before@.delay,
            event is Some ==> {
                let lasted = nanos(ran_for) >= nanos(before@.restart.healthy_after);
                let ceiling = nanos(before@.restart.ceiling);
                &&& event->0 is BackingOff && nanos(event->0->BackingOff_0) == after@.delay
                &&& lasted ==> after@.delay == nanos(before@.restart.base)
                &&& !lasted && 2 * before@.delay <= ceiling ==> after@.delay == 2 * before@.delay
                &&& !lasted && 2 * before@.delay >= ceiling ==> after@.delay == ceiling
                &&& after@ == before@.backed_off(nanos(ran_for))
            },
    {
    }

    /// A helper that dies at startup is retried more slowly the next time, also
    /// where a turn of whatever kind comes in between: the second delay is twice
    /// the first, or the ceiling where that is less.
    pub proof fn law_the_backoff_survives_a_turn<'a>(
        first: Supervisor,
        second: Supervisor,
        third: Supervisor,
        last: Supervisor,
        runs: (Duration, Duration),
        occupancy: &'a Occupancy,
        now: Duration,
        turn: Turn<'a>,
        events: (Option<Event<'static>>, Option<Event<'static>>),
    )
        requires
            exists|supervisor: &mut Supervisor| #[trigger]
                call_ensures(Supervisor::back_off, (supervisor, runs.0), events.0) && *supervisor
                    == first && *final(supervisor) == second,
            exists|supervisor: &mut Supervisor| #[trigger]
                call_ensures(Supervisor::tick, (supervisor, occupancy, now), turn) && *supervisor
                    == second && *final(supervisor) == third,
            exists|supervisor: &mut Supervisor| #[trigger]
                call_ensures(Supervisor::back_off, (supervisor, runs.1), events.1) && *supervisor
                    == third && *final(supervisor) == last,
            nanos(runs.1) < nanos(first@.restart.healthy_after),
            events.0 is Some,
            events.1 is Some,
        ensures
            ({
                let ceiling = nanos(first@.restart.ceiling);
                let delays = (
                    nanos(events.0->0->BackingOff_0),
                    nanos(events.1->0->BackingOff_0),
                );
                delays.1 == (if 2 * delays.0 <= ceiling {
                    2 * delays.0
                } else {
                    ceiling
                })
            }),
    {
        Supervisor::law_backing_off_changes_nothing_but_the_delay(first, second, runs.0, events.0);
        Supervisor::law_a_turn_changes_nothing_but_the_wait(second, third, occupancy, now, turn);
        Supervisor::law_backing_off_changes_nothing_but_the_delay(third, last, runs.1, events.1);
    }

    /// A supervisor begins with the role and the run it is given, waiting for
    /// nobody, and with the base delay of its restart policy.
    pub proof fn law_a_supervisor_begins_afresh(role: Role, mine: Run, supervisor: Supervisor)
        requires
            call_ensures(Supervisor::new, (role, mine), supervisor),
        ensures
            supervisor@.role == role,
            supervisor@.mine == mine,
            supervisor@.waiting_since is None,
            supervisor@.delay == nanos(supervisor@.restart.base),
    {
    }

    /// Each setting sets what it is named after and nothing else, but that a new
    /// restart policy begins with its own base delay.
    pub proof fn law_a_setting_sets_what_it_is_named_after(
        self,
        span: Duration,
        restart: Restart,
        graced: Supervisor,
        polled: Supervisor,
        restarted: Supervisor,
    )
        requires
            call_ensures(Supervisor::grace, (self, span), graced),
            call_ensures(Supervisor::poll, (self, span), polled),
            call_ensures(Supervisor::restart, (self, restart), restarted),
        ensures
            graced@ == (Supervision { grace: nanos(span), ..self@ }),
            polled@ == (Supervision { poll: nanos(span), ..self@ }),
            restarted@.restart == restart,
            restarted@.delay == nanos(restart.base),
            restarted@ == (Supervision {
                restart: restarted@.restart,
                delay: restarted@.delay,
                ..self@
            }),
    {
    }

    /// A supervisor tells the role it supervises and the delay it goes by.
    pub proof fn law_a_supervisor_tells_role_and_delay(self, role: Role, delay: Duration)
        requires
            call_ensures(Supervisor::role, (&self,), &role),
            call_ensures(Supervisor::delay, (&self,), delay),
        ensures
            role == self@.role,
            nanos(delay) == self@.delay,
    {
    }

    /// An attempt is reported with the very pid or error it came to, and only a
    /// helper that was started is waited for; what is waited for is reported with
    /// the very status or error it came to, and how long it ran.
    pub proof fn law_an_attempt_is_reported_as_it_went<'a>(
        launch: Result<u32, &'a io::Error>,
        started: (Event<'a>, Next),
        exit: Result<ExitStatus<'a>, &'a io::Error>,
        ran_for: Duration,
        exited: (Event<'a>, Next),
    )
        requires
            call_ensures(Supervisor::start, (launch,), started),
            call_ensures(Supervisor::exited, (exit, ran_for), exited),
        ensures
            launch matches Ok(pid) ==> started == (Event::Started(pid), Next::AwaitExit),
            launch matches Err(error) ==> started == (Event::SpawnFailed(error), Next::BackOff),
            exit matches Ok(status) ==> exited == (
                Event::Exited { status, ran_for },
                Next::BackOff,
            ),
            exit matches Err(error) ==> exited == (Event::WaitFailed(error), Next::BackOff),
    {
    }
}

impl<'a> Event<'a> {
    /// A log line says what happened and to whom.
    pub proof fn law_a_log_line_says_what_happened(self, said: &str, words: String)
        requires
            call_ensures(Event::describe_saying, (&self, said), words),
        ensures
            self matches Event::Occupied(occupancy) ==> words@ == "role "@ + occupancy.words(),
            self matches Event::Superseded(record) ==> words@ == "role held by a finished run: "@
                + record.words(),
            self is SupersededAnonymously ==> words@
                == "role held by a tenant that never identified itself"@,
            self matches Event::Started(pid) ==> words@ == "helper started, pid "@ + decimal(
                pid as nat,
            ),
            self matches Event::Exited { status, ran_for } ==> words@ == "helper exited "@
                + status.words@ + " after "@ + rounded_words(nanos(ran_for)),
            self is SpawnFailed ==> words@ == "helper could not be started: "@ + said@,
            self is WaitFailed ==> words@ == "helper could not be waited for: "@ + said@,
            self matches Event::BackingOff(delay) ==> words@ == "waiting "@ + rounded_words(
                nanos(delay),
            ) + " before the next attempt"@,
    {
    }

    /// A log line says of an error what the error says of itself.
    pub proof fn law_a_log_line_says_what_its_error_says(self, words: String)
        requires
            call_ensures(Event::describe, (&self,), words),
        ensures
            self is SpawnFailed ==> exists|said: Seq<char>| #[trigger]
                self.was_said(said) && words@ == "helper could not be started: "@ + said,
            self is WaitFailed ==> exists|said: Seq<char>| #[trigger]
                self.was_said(said) && words@ == "helper could not be waited for: "@ + said,
            !(self is SpawnFailed) && !(self is WaitFailed) ==> forall|plain: String, said: &str|
                #[trigger] call_ensures(Event::describe_saying, (&self, said), plain) ==> plain@
                    == words@,
    {
    }
}

} // verus!
