//! The identity a tenant writes beside the lock, and how to read it back.

use crate::identity::Identity;
use crate::paths::same_path;
use crate::text::{decimal, push_decimal};
use std::path::PathBuf;
use vstd::prelude::*;

verus! {

/// The OS-level handle to a process filling a role.
///
/// `pid` alone cannot identify a process - the OS reuses pids - so a tenant
/// records whatever corroborating facts it has. Each of them is optional
/// because not every caller can obtain them without a process-inspection
/// dependency; supplying them is what lets an evictor prove it is signalling
/// the process it read about. See [`Tenant::compare`].
#[derive(Debug, PartialEq, Eq)]
pub struct Tenant {
    /// Process id.
    pub pid: u32,
    /// Process start time, in whatever unit the caller's process-inspection
    /// source reports. Compared for equality only, so the unit only has to be
    /// consistent within one application.
    pub started_at: Option<u64>,
    /// Executable image behind the process.
    pub image: Option<PathBuf>,
}

impl Clone for Tenant {
    fn clone(&self) -> (copy: Tenant)
        ensures
            copy == *self,
    {
        Tenant {
            pid: self.pid,
            started_at: self.started_at,
            image: match &self.image {
                Some(image) => Some(image.clone()),
                None => None,
            },
        }
    }
}

impl Tenant {
    /// Add the process start time an inspection source reported.
    #[must_use]
    pub fn started(self, at: u64) -> (tenant: Tenant)
        ensures
            tenant == (Tenant { started_at: Some(at), ..self }),
    {
        let mut tenant = self;
        tenant.started_at = Some(at);
        tenant
    }

    /// What the start times of the two say.
    pub open spec fn start_says(self, live: Tenant) -> Corroboration {
        match (self.started_at, live.started_at) {
            (Some(recorded), Some(live)) => if recorded == live {
                Corroboration::Confirms
            } else {
                Corroboration::Contradicts
            },
            _ => Corroboration::Unknown,
        }
    }

    /// What the executable images of the two say.
    pub open spec fn image_says(self, live: Tenant) -> Corroboration {
        match (self.image, live.image) {
            (Some(recorded), Some(live)) => if same_path(recorded, live) {
                Corroboration::Confirms
            } else {
                Corroboration::Contradicts
            },
            _ => Corroboration::Unknown,
        }
    }

    /// Whether `live` is the process this tenant describes: refuted by another
    /// pid or by one fact that disagrees, confirmed by one fact that agrees.
    pub open spec fn sameness(self, live: Tenant) -> Sameness {
        if self.pid != live.pid || self.start_says(live) is Contradicts || self.image_says(
            live,
        ) is Contradicts {
            Sameness::Different
        } else if self.start_says(live) is Confirms || self.image_says(live) is Confirms {
            Sameness::Same
        } else {
            Sameness::Inconclusive
        }
    }

    /// A process is the recorded one where the pid is the same, one fact at least
    /// confirms it and none contradicts it; it is another where the pid differs
    /// or one fact contradicts.
    pub proof fn law_one_fact_confirms_and_one_refutes(self, live: Tenant)
        ensures
            self.sameness(live) is Same <==> {
                &&& self.pid == live.pid
                &&& self.start_says(live) is Confirms || self.image_says(live) is Confirms
                &&& !(self.start_says(live) is Contradicts)
                &&& !(self.image_says(live) is Contradicts)
            },
            self.sameness(live) is Different <==> {
                ||| self.pid != live.pid
                ||| self.start_says(live) is Contradicts
                ||| self.image_says(live) is Contradicts
            },
    {
    }

    /// A pid alone cannot confirm a process: where one side or the other knows
    /// nothing more, a pid that is the same leaves the question open.
    pub proof fn law_a_pid_alone_cannot_confirm(self, live: Tenant)
        requires
            self.pid == live.pid,
            self.started_at is None || live.started_at is None,
            self.image is None || live.image is None,
        ensures
            self.sameness(live) is Inconclusive,
    {
    }

    /// It does not matter which of two tenants is held against the other.
    pub proof fn law_comparison_is_symmetric(self, other: Tenant, there: Sameness, back: Sameness)
        requires
            call_ensures(Tenant::compare, (&self, &other), there),
            call_ensures(Tenant::compare, (&other, &self), back),
        ensures
            there == back,
    {
    }

    /// A tenant is itself as far as it has a fact to show for it: its pid alone
    /// leaves the question open.
    pub proof fn law_a_tenant_is_itself(self, sameness: Sameness)
        requires
            call_ensures(Tenant::compare, (&self, &self), sameness),
        ensures
            sameness is Same <==> self.started_at is Some || self.image is Some,
            sameness is Inconclusive <==> self.started_at is None && self.image is None,
    {
    }

    /// Whether `live` - the facts just looked up for this record's pid - is
    /// still the process that wrote the record.
    ///
    /// Call this before signalling anyone. A record can outlive its writer,
    /// and the pid it names may since belong to something unrelated.
    #[must_use]
    pub fn compare(&self, live: &Tenant) -> (sameness: Sameness)
        ensures
            sameness == self.sameness(*live),
            sameness == live.sameness(*self),
            *self == *live ==> sameness == (if self.started_at is Some || self.image is Some {
                Sameness::Same
            } else {
                Sameness::Inconclusive
            }),
    {
        if self.pid != live.pid {
            return Sameness::Different;
        }
        let start = Corroboration::of(self.started_at.as_ref(), live.started_at.as_ref());
        let image = Corroboration::of(self.image.as_ref(), live.image.as_ref());
        match (start, image) {
            (Corroboration::Contradicts, _) | (_, Corroboration::Contradicts) => {
                Sameness::Different
            },
            (Corroboration::Confirms, _) | (_, Corroboration::Confirms) => Sameness::Same,
            (Corroboration::Unknown, Corroboration::Unknown) => Sameness::Inconclusive,
        }
    }
}

/// What one recorded fact says about two processes sharing a pid.
#[derive(Clone, Copy, Debug, PartialEq, Eq, Structural)]
pub enum Corroboration {
    /// Both sides know the fact, and agree on it.
    Confirms,
    /// Both sides know the fact, and disagree on it.
    Contradicts,
    /// One side or the other does not know the fact.
    Unknown,
}

impl Corroboration {
    /// What a fact says that one side recorded and the other reports.
    pub fn of<T: PartialEq>(recorded: Option<&T>, live: Option<&T>) -> (says: Corroboration)
        ensures
            match (recorded, live) {
                (Some(recorded), Some(live)) => match says {
                    Corroboration::Confirms => call_ensures(T::eq, (recorded, live), true),
                    Corroboration::Contradicts => call_ensures(T::eq, (recorded, live), false),
                    Corroboration::Unknown => false,
                },
                _ => says is Unknown,
            },
    {
        match (recorded, live) {
            (Some(recorded), Some(live)) => if recorded.eq(live) {
                Corroboration::Confirms
            } else {
                Corroboration::Contradicts
            },
            _ => Corroboration::Unknown,
        }
    }
}

/// Whether a live process is the one a record describes.
///
/// [`Sameness::Inconclusive`] is not a soft "probably": it means the record
/// carried nothing beyond a pid, so the answer is unknown. Treat it as a
/// reason to be careful - logging it, or refusing to escalate past a polite
/// signal - rather than as a yes.
#[derive(Clone, Copy, Debug, PartialEq, Eq, Structural)]
pub enum Sameness {
    /// Corroborated: same pid, and every fact both sides know agrees.
    Same,
    /// Refuted: a different pid, or a fact that disagrees.
    Different,
    /// Only the pid was available to compare.
    Inconclusive,
}

/// What a tenant publishes about itself while it holds a role.
///
/// The record is advisory. The lock is what proves a tenant is alive; this is
/// what lets an onlooker say *which* tenant, and therefore whether it belongs
/// to the current run of the owner.
#[derive(Debug, PartialEq, Eq)]
pub struct Record {
    /// The owner run this tenant serves.
    pub identity: Identity,
    /// The process filling the role.
    pub tenant: Tenant,
}

impl Clone for Record {
    fn clone(&self) -> (copy: Record)
        ensures
            copy == *self,
    {
        Record { identity: self.identity, tenant: self.tenant.clone() }
    }
}

impl Record {
    /// Pair an owner identity with the process serving it.
    #[must_use]
    pub fn new(identity: Identity, tenant: Tenant) -> (record: Record)
        ensures
            record.identity == identity,
            record.tenant == tenant,
    {
        Record { identity, tenant }
    }

    /// The tenant in words.
    pub open spec fn words(self) -> Seq<char> {
        "pid "@ + decimal(self.tenant.pid as nat) + ", serving run "@ + decimal(
            self.identity.run@ as nat,
        )
    }

    /// Say who the tenant is, for a log line.
    #[must_use]
    pub fn describe(&self) -> (words: String)
        ensures
            words@ == self.words(),
    {
        let mut words = String::from_str("pid ");
        push_decimal(&mut words, self.tenant.pid as u64);
        words.append(", serving run ");
        push_decimal(&mut words, self.identity.run.get());
        words
    }
}

/// Why a claim record could not be read.
#[derive(Clone, Copy, Debug, PartialEq, Eq)]
pub enum MalformedRecord {
    /// A key the record cannot do without is absent.
    Missing {
        /// The absent key.
        key: &'static str,
    },
    /// A key that must hold a number holds something else.
    NotANumber {
        /// The offending key.
        key: &'static str,
    },
}

impl MalformedRecord {
    /// The fault in words.
    pub open spec fn words(self) -> Seq<char> {
        match self {
            MalformedRecord::Missing { key } => "claim record has no `"@ + key@ + "`"@,
            MalformedRecord::NotANumber { key } => "claim record's `"@ + key@
                + "` is not a number"@,
        }
    }

    /// Say what is wrong, for a log line.
    #[must_use]
    pub fn describe(&self) -> (words: String)
        ensures
            words@ == self.words(),
    {
        match self {
            MalformedRecord::Missing { key } => {
                let mut words = String::from_str("claim record has no `");
                words.append(key);
                words.append("`");
                words
            },
            MalformedRecord::NotANumber { key } => {
                let mut words = String::from_str("claim record's `");
                words.append(key);
                words.append("` is not a number");
                words
            },
        }
    }
}

impl Tenant {
    /// A fact decides where both sides know it: a pid, a start time or an image
    /// that is not the same tells two tenants apart, whatever else agrees; a start
    /// time or an image that is the same confirms a tenant that nothing tells
    /// apart; and a pid that is the same, with nothing else known to both sides,
    /// leaves the question open. Start times are the same where they are the same
    /// number.
    pub proof fn law_what_both_sides_know_decides(self, live: Tenant, sameness: Sameness)
        requires
            call_ensures(Tenant::compare, (&self, &live), sameness),
        ensures
            sameness is Different <==> {
                ||| self.pid != live.pid
                ||| self.started_at is Some && live.started_at is Some && self.started_at
                    != live.started_at
                ||| self.image is Some && live.image is Some && !same_path(
                    self.image->0,
                    live.image->0,
                )
            },
            sameness is Same <==> {
                &&& self.pid == live.pid
                &&& self.started_at is None || live.started_at is None || self.started_at
                    == live.started_at
                &&& self.image is None || live.image is None || same_path(
                    self.image->0,
                    live.image->0,
                )
                &&& {
                    ||| self.started_at is Some && live.started_at is Some
                    ||| self.image is Some && live.image is Some
                }
            },
            sameness is Inconclusive <==> {
                &&& self.pid == live.pid
                &&& self.started_at is None || live.started_at is None
                &&& self.image is None || live.image is None
            },
    {
    }

    /// A start time that is added is the one that counts: the tenant is otherwise
    /// what it was, and a live process of its pid that was started at another
    /// time is another process.
    pub proof fn law_a_start_time_that_is_added_counts(
        self,
        at: u64,
        started: Tenant,
        live: Tenant,
        sameness: Sameness,
    )
        requires
            call_ensures(Tenant::started, (self, at), started),
            call_ensures(Tenant::compare, (&started, &live), sameness),
        ensures
            started.pid == self.pid,
            started.image == self.image,
            started.started_at == Some(at),
            live.started_at is Some && live.started_at != Some(at) ==> sameness is Different,
    {
    }
}

impl Corroboration {
    /// Two numbers confirm each other exactly where they are equal, contradict
    /// each other exactly where they are not, and say nothing exactly where one
    /// of them is not there.
    pub proof fn law_numbers_are_compared_for_equality(
        recorded: Option<&u64>,
        live: Option<&u64>,
        says: Corroboration,
    )
        requires
            call_ensures(Corroboration::of::<u64>, (recorded, live), says),
        ensures
            says is Unknown <==> recorded is None || live is None,
            says is Confirms <==> recorded is Some && live is Some && *recorded->0 == *live->0,
            says is Contradicts <==> recorded is Some && live is Some && *recorded->0 != *live->0,
    {
    }
}

impl Record {
    /// A record is the two things it was made of.
    pub proof fn law_a_record_is_its_parts(identity: Identity, tenant: Tenant, record: Record)
        requires
            call_ensures(Record::new, (identity, tenant), record),
        ensures
            record == (Record { identity, tenant }),
    {
    }

    /// A log line names the pid and the run, in decimal.
    pub proof fn law_a_log_line_names_pid_and_run(self, words: String)
        requires
            call_ensures(Record::describe, (&self,), words),
        ensures
            words@ == "pid "@ + decimal(self.tenant.pid as nat) + ", serving run "@ + decimal(
                self.identity.run@ as nat,
            ),
    {
    }
}

impl MalformedRecord {
    /// A log line names the key, and tells the two faults apart.
    pub proof fn law_a_log_line_names_the_key(self, words: String)
        requires
            call_ensures(MalformedRecord::describe, (&self,), words),
        ensures
            self matches MalformedRecord::Missing { key } ==> words@ == "claim record has no `"@
                + key@ + "`"@,
            self matches MalformedRecord::NotANumber { key } ==> words@ == "claim record's `"@
                + key@ + "` is not a number"@,
    {
    }
}

} // verus!
