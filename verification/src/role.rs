//! The role itself: taking it, publishing who took it, and looking at who has.

use crate::format::{facts_in, law_only_known_lines_count, telling_lines};
use crate::paths::{join, joined};
use crate::record::{MalformedRecord, Record};
use crate::text::{decimal, lemma_decimal_is_read_back, push_decimal};
use std::io;
use std::path::PathBuf;
use vstd::prelude::*;

verus! {

/// [`std::io::Error`], carried as an opaque value.
#[verifier::external_type_specification]
#[verifier::external_body]
pub struct ExIoError(io::Error);

/// Whether [`std::io::Error::kind`] is `NotFound`.
pub uninterp spec fn not_found(error: io::Error) -> bool;

/// [`std::io::Error::kind`], held against `NotFound`: it depends on the error
/// alone.
#[verifier::external_body]
fn is_not_found(error: &io::Error) -> (is: bool)
    ensures
        is == not_found(*error),
{
    error.kind() == io::ErrorKind::NotFound
}

/// A job exactly one live process may do at a time.
///
/// Backed by two files in a directory the caller chooses: `<name>.lock`, whose
/// advisory lock proves a tenant is alive, and `<name>.claim`, which says who
/// the tenant is. The split is deliberate - the lock file's inode is never
/// rewritten, so a reader can never catch it half-written, and a stale claim
/// file left by a crash is harmless because [`Role::occupancy`] only reads it
/// while the lock is actually held.
#[derive(Debug, PartialEq, Eq)]
pub struct Role {
    lock: PathBuf,
    record: PathBuf,
}

impl Clone for Role {
    fn clone(&self) -> (copy: Role)
        ensures
            copy == *self,
    {
        Role { lock: self.lock.clone(), record: self.record.clone() }
    }
}

/// What came of trying the lock of a lock file that could be opened.
#[derive(Debug)]
pub enum LockAttempt<L> {
    /// It was free, and is held now, for as long as the value within lives.
    Taken(L),
    /// Another live process holds it.
    WouldBlock,
    /// It could not be tried.
    Failed(io::Error),
}

impl Role {
    /// The lock file.
    pub closed spec fn lock_file(self) -> PathBuf {
        self.lock
    }

    /// The claim file.
    pub closed spec fn claim_file(self) -> PathBuf {
        self.record
    }

    /// A role named `name`, kept in `dir`.
    ///
    /// Resolving `dir` is the caller's business: this crate has no opinion on
    /// where an application's runtime state belongs, and no way to know
    /// whether the caller separates development from production installs.
    #[must_use]
    pub fn new(dir: &PathBuf, name: &str) -> (role: Role)
        ensures
            role.lock_file() == joined(*dir, name@ + ".lock"@),
            role.claim_file() == joined(*dir, name@ + ".claim"@),
    {
        let mut lock = String::from_str(name);
        lock.append(".lock");
        let mut record = String::from_str(name);
        record.append(".claim");
        Role { lock: join(dir, lock.as_str()), record: join(dir, record.as_str()) }
    }

    /// Take the role, saying who takes it in the same breath.
    ///
    /// `attempt` is what came of opening the lock file and trying its lock, and
    /// `publish` writes a text to the claim file. A tenant nobody can identify
    /// is worse than none, so a record that cannot be written gives the role
    /// straight back: the lock is let go and the claim fails.
    ///
    /// # Errors
    ///
    /// [`ClaimError::Occupied`] when another process holds the role, which is
    /// the ordinary "not me, then" answer rather than a fault;
    /// [`ClaimError::Io`] when the lock file cannot be created or locked;
    /// [`ClaimError::Unpublishable`] when the record cannot be written.
    pub fn claim<L, P: FnOnce(&PathBuf, String) -> Result<(), io::Error>>(
        &self,
        record: &Record,
        attempt: Result<LockAttempt<L>, io::Error>,
        publish: P,
    ) -> (claimed: Result<Tenancy<L>, ClaimError>)
        requires
            attempt matches Ok(LockAttempt::Taken(_)) ==> forall|text: String|
                text@ == record.text() ==> #[trigger] publish.requires((&self.claim_file(), text)),
        ensures
            match attempt {
                Err(error) => claimed == Err::<Tenancy<L>, ClaimError>(ClaimError::Io(error)),
                Ok(LockAttempt::Failed(error)) => claimed == Err::<Tenancy<L>, ClaimError>(
                    ClaimError::Io(error),
                ),
                Ok(LockAttempt::WouldBlock) => claimed == Err::<Tenancy<L>, ClaimError>(
                    ClaimError::Occupied,
                ),
                Ok(LockAttempt::Taken(lock)) => exists|text: String, published: Result<(), io::Error>|
                    {
                        &&& text@ == record.text()
                        &&& #[trigger] publish.ensures((&self.claim_file(), text), published)
                        &&& match published {
                            Ok(_) => claimed matches Ok(tenancy) && tenancy.lock() == lock
                                && tenancy.claim_file() == self.claim_file(),
                            Err(error) => claimed == Err::<Tenancy<L>, ClaimError>(
                                ClaimError::Unpublishable(error),
                            ),
                        }
                    },
            },
    {
        match attempt {
            Err(error) => Err(ClaimError::from(error)),
            Ok(LockAttempt::Failed(error)) => Err(ClaimError::Io(error)),
            Ok(LockAttempt::WouldBlock) => Err(ClaimError::Occupied),
            Ok(LockAttempt::Taken(lock)) => {
                let tenancy = Tenancy { lock, record: self.record.clone() };
                assert(tenancy.claim_file() == self.claim_file());
                match tenancy.publish(record, publish) {
                    Ok(()) => Ok(tenancy),
                    Err(error) => Err(ClaimError::Unpublishable(error)),
                }
            },
        }
    }

    /// Who holds the role right now.
    ///
    /// `attempt` is what came of opening the lock file, without creating it, and
    /// trying its lock; `read` reads a file as text, where it can be read. A
    /// lock that turns out to be free is let go at once. That makes
    /// [`Occupancy::Free`] a snapshot rather than a reservation - a caller
    /// acting on it must still tolerate losing the race to another starter. The
    /// claim file is read only while the lock is held.
    ///
    /// # Errors
    ///
    /// The underlying [`io::Error`] when the lock file exists but cannot be
    /// opened or locked. A caller that wants to keep going should treat that
    /// as [`Occupancy::Free`] and let the real [`Role::claim`] report the
    /// trouble properly; assuming "held" instead would wait forever.
    pub fn occupancy<L, R: FnOnce(&PathBuf) -> Option<String>>(
        &self,
        attempt: Result<LockAttempt<L>, io::Error>,
        read: R,
    ) -> (occupancy: Result<Occupancy, io::Error>)
        requires
            attempt matches Ok(LockAttempt::WouldBlock) ==> read.requires((&self.claim_file(),)),
        ensures
            match attempt {
                Err(error) => occupancy == (if not_found(error) {
                    Ok(Occupancy::Free)
                } else {
                    Err(error)
                }),
                Ok(LockAttempt::Taken(_)) => occupancy == Ok::<Occupancy, io::Error>(
                    Occupancy::Free,
                ),
                Ok(LockAttempt::Failed(error)) => occupancy == Err::<Occupancy, io::Error>(error),
                Ok(LockAttempt::WouldBlock) => occupancy matches Ok(holder) && exists|
                    text: Option<String>,
                | #[trigger]
                    read.ensures((&self.claim_file(),), text) && holder.identified_by(text),
            },
    {
        match attempt {
            Err(error) => {
                if is_not_found(&error) {
                    Ok(Occupancy::Free)
                } else {
                    Err(error)
                }
            },
            Ok(LockAttempt::Taken(_)) => Ok(Occupancy::Free),
            Ok(LockAttempt::Failed(error)) => Err(error),
            Ok(LockAttempt::WouldBlock) => Ok(Role::identify_holder(read(&self.record))),
        }
    }

    /// The lock file backing this role.
    #[must_use]
    pub fn lock_path(&self) -> (path: &PathBuf)
        ensures
            *path == self.lock_file(),
    {
        &self.lock
    }

    /// The claim file backing this role.
    #[must_use]
    pub fn record_path(&self) -> (path: &PathBuf)
        ensures
            *path == self.claim_file(),
    {
        &self.record
    }

    /// Who holds a role whose lock is held, given the text of its claim file
    /// where that could be read.
    #[must_use]
    pub fn identify_holder(text: Option<String>) -> (holder: Occupancy)
        ensures
            holder.identified_by(text),
    {
        match text {
            Some(text) => match Record::parse(text.as_str()) {
                Ok(record) => Occupancy::HeldBy(record),
                Err(_) => Occupancy::HeldAnonymously,
            },
            None => Occupancy::HeldAnonymously,
        }
    }
}

/// Proof that this process holds a role. Letting go of the lock within gives
/// the role up.
#[derive(Debug)]
pub struct Tenancy<L> {
    lock: L,
    record: PathBuf,
}

impl<L> Tenancy<L> {
    /// What keeps the lock held.
    pub closed spec fn lock(self) -> L {
        self.lock
    }

    /// The claim file.
    pub closed spec fn claim_file(self) -> PathBuf {
        self.record
    }

    /// Say who is holding the role.
    ///
    /// `publish` puts a text in the place of the claim file's: see
    /// [`PublishStep`]. Call it again to correct the record if the facts change.
    ///
    /// # Errors
    ///
    /// What `publish` reports. The tenant still holds the role, under the
    /// record it published before.
    pub fn publish<P: FnOnce(&PathBuf, String) -> Result<(), io::Error>>(
        &self,
        record: &Record,
        publish: P,
    ) -> (published: Result<(), io::Error>)
        requires
            forall|text: String|
                text@ == record.text() ==> #[trigger] publish.requires((&self.claim_file(), text)),
        ensures
            exists|text: String|
                text@ == record.text() && #[trigger] publish.ensures(
                    (&self.claim_file(), text),
                    published,
                ),
    {
        let text = record.to_text();
        assert(publish.requires((&self.claim_file(), text)));
        let published = publish(&self.record, text);
        assert(publish.ensures((&self.claim_file(), text), published));
        published
    }

    /// The claim file, which goes when the tenancy ends.
    #[must_use]
    pub fn record_path(&self) -> (path: &PathBuf)
        ensures
            *path == self.claim_file(),
    {
        &self.record
    }
}

/// Who, if anyone, is filling a role.
#[derive(Debug, PartialEq, Eq)]
pub enum Occupancy {
    /// Nobody holds it.
    Free,
    /// Held by a tenant that said who it is.
    HeldBy(Record),
    /// Held by something that published no readable record - an older build
    /// that predates the convention, a foreign process, or a tenant that could
    /// not write. It is alive, but nothing about it can be reasoned with.
    HeldAnonymously,
}

impl Clone for Occupancy {
    fn clone(&self) -> (copy: Occupancy)
        ensures
            copy == *self,
    {
        match self {
            Occupancy::Free => Occupancy::Free,
            Occupancy::HeldBy(record) => Occupancy::HeldBy(record.clone()),
            Occupancy::HeldAnonymously => Occupancy::HeldAnonymously,
        }
    }
}

impl Occupancy {
    /// Whether this is what a held role looks like whose claim file reads as
    /// `text`: held by whoever the record names, or by nobody in particular
    /// where there is no record to be read.
    pub open spec fn identified_by(self, text: Option<String>) -> bool {
        match text {
            Some(text) => {
                &&& match facts_in(text@) {
                    Ok(facts) => self matches Occupancy::HeldBy(record) && record.states(facts),
                    Err(_) => self is HeldAnonymously,
                }
                &&& forall|written: Record| #[trigger]
                    written.text() == text@ && written.fits_its_text() ==> self
                        == Occupancy::HeldBy(written)
            },
            None => self is HeldAnonymously,
        }
    }

    /// The state of the role in words.
    pub open spec fn words(self) -> Seq<char> {
        match self {
            Occupancy::Free => "free"@,
            Occupancy::HeldBy(record) => "held by "@ + record.words(),
            Occupancy::HeldAnonymously => "held by an unidentified tenant"@,
        }
    }

    /// Say who holds the role, for a log line.
    #[must_use]
    pub fn describe(&self) -> (words: String)
        ensures
            words@ == self.words(),
    {
        match self {
            Occupancy::Free => String::from_str("free"),
            Occupancy::HeldBy(record) => {
                let mut words = String::from_str("held by ");
                words.append(record.describe().as_str());
                words
            },
            Occupancy::HeldAnonymously => String::from_str("held by an unidentified tenant"),
        }
    }

    /// Taking the role is what publishes the record: whoever finds the lock held
    /// and reads the text that the tenant published sees that very tenant.
    pub proof fn law_a_published_tenant_is_recognized(self, record: Record, text: String)
        requires
            record.fits_its_text(),
            text@ == record.text(),
            self.identified_by(Some(text)),
        ensures
            self == Occupancy::HeldBy(record),
    {
    }

    /// Garbage costs identification, never liveness: whatever the claim file of
    /// a held role reads as, the role is not free.
    pub proof fn law_a_held_role_is_never_free(self, text: Option<String>)
        requires
            self.identified_by(text),
        ensures
            !(self is Free),
    {
    }
}

/// Why a role could not be taken.
#[derive(Debug)]
pub enum ClaimError {
    /// Another live process holds the role. The expected answer, not a fault.
    Occupied,
    /// The lock file could not be created, opened, or locked.
    Io(io::Error),
    /// The role was free, but the record could not be written, so the role was
    /// given back.
    Unpublishable(io::Error),
}

impl From<io::Error> for ClaimError {
    fn from(source: io::Error) -> (error: ClaimError) {
        ClaimError::Io(source)
    }
}

impl vstd::std_specs::convert::FromSpecImpl<io::Error> for ClaimError {
    open spec fn obeys_from_spec() -> bool {
        true
    }

    open spec fn from_spec(source: io::Error) -> ClaimError {
        ClaimError::Io(source)
    }
}

impl ClaimError {
    /// The failure in words.
    pub open spec fn words(self) -> Seq<char> {
        match self {
            ClaimError::Occupied => "the role is already held"@,
            ClaimError::Io(_) => "the role's lock file could not be taken"@,
            ClaimError::Unpublishable(_) => "the role's record could not be published"@,
        }
    }

    /// Say what went wrong, for a log line.
    #[must_use]
    pub fn describe(&self) -> (words: String)
        ensures
            words@ == self.words(),
    {
        match self {
            ClaimError::Occupied => String::from_str("the role is already held"),
            ClaimError::Io(_) => String::from_str("the role's lock file could not be taken"),
            ClaimError::Unpublishable(_) => {
                String::from_str("the role's record could not be published")
            },
        }
    }

    /// The failure underneath, where there is one.
    #[must_use]
    pub fn source(&self) -> (source: Option<&io::Error>)
        ensures
            source == (match *self {
                ClaimError::Occupied => None,
                ClaimError::Io(source) => Some(&source),
                ClaimError::Unpublishable(source) => Some(&source),
            }),
    {
        match self {
            ClaimError::Occupied => None,
            ClaimError::Io(source) => Some(source),
            ClaimError::Unpublishable(source) => Some(source),
        }
    }
}

/// What a record is written to before it takes the place of the claim file:
/// the claim file's own path, and behind it this suffix of the writing process.
#[must_use]
pub fn temporary_suffix(pid: u32) -> (suffix: String)
    ensures
        suffix@ == "."@ + decimal(pid as nat) + ".tmp"@,
{
    let mut suffix = String::from_str(".");
    push_decimal(&mut suffix, pid as u64);
    suffix.append(".tmp");
    suffix
}

/// One step of publishing a record.
///
/// The record is written to a temporary file and renamed into place, so a
/// reader sees either the previous record or this one, never a half-written
/// line.
#[derive(Clone, Copy, Debug, PartialEq, Eq, Structural)]
pub enum PublishStep {
    /// Create the temporary file.
    Create,
    /// Write the record to it.
    Write,
    /// Have it reach the disk.
    Sync,
    /// Rename it to the claim file.
    Rename,
}

/// What follows a step of publishing a record.
#[derive(Clone, Copy, Debug, PartialEq, Eq, Structural)]
pub enum PublishNext {
    /// Take this step.
    Take(PublishStep),
    /// The record is published.
    Published,
    /// It is not, for the reason that the step failed.
    Failed {
        /// Whether to remove the temporary file.
        discard: bool,
    },
}

impl PublishStep {
    /// What follows this step, once it is done or has failed.
    pub open spec fn followed_by(self, done: bool) -> PublishNext {
        match self {
            PublishStep::Create if done => PublishNext::Take(PublishStep::Write),
            PublishStep::Write if done => PublishNext::Take(PublishStep::Sync),
            PublishStep::Sync if done => PublishNext::Take(PublishStep::Rename),
            PublishStep::Rename if done => PublishNext::Published,
            PublishStep::Rename => PublishNext::Failed { discard: true },
            _ => PublishNext::Failed { discard: false },
        }
    }

    /// What follows this step, once it is done or has failed.
    #[must_use]
    pub fn next(self, done: bool) -> (next: PublishNext)
        ensures
            next == self.followed_by(done),
    {
        match self {
            PublishStep::Create => {
                if done {
                    PublishNext::Take(PublishStep::Write)
                } else {
                    PublishNext::Failed { discard: false }
                }
            },
            PublishStep::Write => {
                if done {
                    PublishNext::Take(PublishStep::Sync)
                } else {
                    PublishNext::Failed { discard: false }
                }
            },
            PublishStep::Sync => {
                if done {
                    PublishNext::Take(PublishStep::Rename)
                } else {
                    PublishNext::Failed { discard: false }
                }
            },
            PublishStep::Rename => {
                if done {
                    PublishNext::Published
                } else {
                    PublishNext::Failed { discard: true }
                }
            },
        }
    }

    /// Where publishing stands when its steps, from this one on, went as `done`
    /// says.
    pub open spec fn followed_through(self, done: Seq<bool>) -> PublishNext
        decreases done.len(),
    {
        if done.len() == 0 {
            PublishNext::Take(self)
        } else {
            match self.followed_by(done[0]) {
                PublishNext::Take(step) => step.followed_through(done.drop_first()),
                end => end,
            }
        }
    }

    /// The claim file is replaced only by a record that is whole and on disk:
    /// the rename is taken only once all three steps before it are done, and
    /// the record is published only once the rename is.
    pub proof fn law_a_reader_never_sees_half_a_record(done: Seq<bool>)
        ensures
            PublishStep::Create.followed_through(done) == PublishNext::Take(PublishStep::Rename)
                <==> done == seq![true, true, true],
            PublishStep::Create.followed_through(done) is Published <==> done.len() >= 4 && done[0]
                && done[1] && done[2] && done[3],
    {
        reveal_with_fuel(PublishStep::followed_through, 5);
        if done.len() == 3 && done[0] && done[1] && done[2] {
            assert(done =~= seq![true, true, true]);
        }
    }

    /// A rename that fails takes its temporary file with it.
    pub proof fn law_a_failed_rename_leaves_nothing_behind(done: Seq<bool>)
        requires
            done.len() >= 4,
            done[0] && done[1] && done[2] && !done[3],
        ensures
            PublishStep::Create.followed_through(done) == (PublishNext::Failed { discard: true }),
    {
        reveal_with_fuel(PublishStep::followed_through, 5);
    }
}

impl Role {
    /// Who holds a held role is whoever the record in its claim file names, for
    /// every text that reads as a record, whichever build wrote it; and nobody in
    /// particular where there is no text, or none that reads as one.
    pub proof fn law_whoever_a_readable_record_names_is_the_holder(
        text: String,
        read: &str,
        parsed: Result<Record, MalformedRecord>,
        holder: Occupancy,
        nobody: Occupancy,
    )
        requires
            read@ == text@,
            call_ensures(Record::parse, (read,), parsed),
            call_ensures(Role::identify_holder, (Some(text),), holder),
            call_ensures(Role::identify_holder, (None::<String>,), nobody),
        ensures
            parsed matches Ok(record) ==> holder == Occupancy::HeldBy(record),
            parsed is Err ==> holder == Occupancy::HeldAnonymously,
            nobody == Occupancy::HeldAnonymously,
    {
        if parsed is Ok {
            let (record, same) = (parsed->Ok_0, holder->HeldBy_0);
            record.identity.run.law_raw_form_identifies(same.identity.run);
            record.identity.compat.law_raw_form_identifies(same.identity.compat);
        }
    }

    /// A newer build can say more without being taken for somebody else: two claim
    /// texts that differ only in lines that state nothing a reader knows name the
    /// same holder.
    pub proof fn law_what_a_reader_does_not_know_hides_nobody(
        text: String,
        other: String,
        holder: Occupancy,
        same: Occupancy,
    )
        requires
            telling_lines(text@) == telling_lines(other@),
            call_ensures(Role::identify_holder, (Some(text),), holder),
            call_ensures(Role::identify_holder, (Some(other),), same),
        ensures
            holder == same,
    {
        law_only_known_lines_count(text@, other@);
        if facts_in(text@) is Ok {
            let (record, again) = (holder->HeldBy_0, same->HeldBy_0);
            record.identity.run.law_raw_form_identifies(again.identity.run);
            record.identity.compat.law_raw_form_identifies(again.identity.compat);
        }
    }

    /// A role is free where its lock file is not there or its lock was taken, and
    /// trouble with the lock is handed on as it is.
    pub proof fn law_the_lock_decides_whether_a_role_is_held<
        L,
        R: FnOnce(&PathBuf) -> Option<String>,
    >(
        self,
        attempt: Result<LockAttempt<L>, io::Error>,
        read: R,
        occupancy: Result<Occupancy, io::Error>,
    )
        requires
            call_ensures(Role::occupancy::<L, R>, (&self, attempt, read), occupancy),
        ensures
            attempt matches Err(error) ==> occupancy == (if not_found(error) {
                Ok(Occupancy::Free)
            } else {
                Err(error)
            }),
            attempt matches Ok(LockAttempt::Failed(error)) ==> occupancy == Err::<
                Occupancy,
                io::Error,
            >(error),
            attempt matches Ok(LockAttempt::Taken(_)) ==> occupancy == Ok::<Occupancy, io::Error>(
                Occupancy::Free,
            ),
            attempt matches Ok(LockAttempt::WouldBlock) ==> occupancy is Ok && !(
            occupancy->Ok_0 is Free),
    {
    }

    /// A held role is held by whoever its claim file, as it reads, names.
    pub proof fn law_a_held_role_is_identified_by_its_claim_file<
        L,
        R: FnOnce(&PathBuf) -> Option<String>,
    >(
        self,
        read: R,
        text: Option<String>,
        occupancy: Result<Occupancy, io::Error>,
        holder: Occupancy,
    )
        requires
            call_ensures(
                Role::occupancy::<L, R>,
                (&self, Ok(LockAttempt::WouldBlock), read),
                occupancy,
            ),
            forall|found: Option<String>| #[trigger]
                read.ensures((&self.claim_file(),), found) ==> found == text,
            call_ensures(Role::identify_holder, (text,), holder),
        ensures
            occupancy == Ok::<Occupancy, io::Error>(holder),
    {
        if text is Some && facts_in(text->0@) is Ok {
            let (record, same) = (occupancy->Ok_0->HeldBy_0, holder->HeldBy_0);
            record.identity.run.law_raw_form_identifies(same.identity.run);
            record.identity.compat.law_raw_form_identifies(same.identity.compat);
        }
    }

    /// A claim fails where the lock is held or there is trouble with it, each
    /// reported as what it is. Where the lock was taken, the record in its on-disk
    /// form is published to the claim file; the claim then holds the very lock
    /// where that went well, and fails with the very trouble where it did not.
    pub proof fn law_a_claim_takes_the_lock_and_publishes_or_fails<
        L,
        P: FnOnce(&PathBuf, String) -> Result<(), io::Error>,
    >(
        self,
        record: Record,
        attempt: Result<LockAttempt<L>, io::Error>,
        publish: P,
        claimed: Result<Tenancy<L>, ClaimError>,
        written: String,
    )
        requires
            call_ensures(Role::claim::<L, P>, (&self, &record, attempt, publish), claimed),
            call_ensures(Record::to_text, (&record,), written),
        ensures
            attempt matches Err(error) ==> claimed == Err::<Tenancy<L>, ClaimError>(
                ClaimError::Io(error),
            ),
            attempt matches Ok(LockAttempt::Failed(error)) ==> claimed == Err::<
                Tenancy<L>,
                ClaimError,
            >(ClaimError::Io(error)),
            attempt matches Ok(LockAttempt::WouldBlock) ==> claimed == Err::<
                Tenancy<L>,
                ClaimError,
            >(ClaimError::Occupied),
            attempt matches Ok(LockAttempt::Taken(lock)) ==> exists|
                text: String,
                published: Result<(), io::Error>,
            |
                {
                    &&& text@ == written@
                    &&& #[trigger] publish.ensures((&self.claim_file(), text), published)
                    &&& published is Ok ==> claimed is Ok && claimed->Ok_0.lock() == lock
                        && claimed->Ok_0.claim_file() == self.claim_file()
                    &&& published matches Err(error) ==> claimed == Err::<Tenancy<L>, ClaimError>(
                        ClaimError::Unpublishable(error),
                    )
                },
    {
    }

    /// A role is two files in its directory, named after it.
    pub proof fn law_a_role_is_two_files(
        dir: PathBuf,
        name: &str,
        role: Role,
        lock: PathBuf,
        claim: PathBuf,
    )
        requires
            call_ensures(Role::new, (&dir, name), role),
            call_ensures(Role::lock_path, (&role,), &lock),
            call_ensures(Role::record_path, (&role,), &claim),
        ensures
            lock == joined(dir, name@ + ".lock"@),
            claim == joined(dir, name@ + ".claim"@),
            lock == role.lock_file(),
            claim == role.claim_file(),
    {
    }
}

impl<L> Tenancy<L> {
    /// A tenant publishes its record, in its on-disk form, to the claim file, and
    /// reports what came of that.
    pub proof fn law_a_tenant_publishes_its_record<
        P: FnOnce(&PathBuf, String) -> Result<(), io::Error>,
    >(
        self,
        record: Record,
        publish: P,
        published: Result<(), io::Error>,
        written: String,
        claim: PathBuf,
    )
        requires
            call_ensures(Tenancy::<L>::publish::<P>, (&self, &record, publish), published),
            call_ensures(Record::to_text, (&record,), written),
            call_ensures(Tenancy::<L>::record_path, (&self,), &claim),
        ensures
            exists|text: String|
                text@ == written@ && #[trigger] publish.ensures((&claim, text), published),
            claim == self.claim_file(),
    {
    }
}

impl Occupancy {
    /// A log line says whether the role is held, and by whom where that is known.
    pub proof fn law_a_log_line_says_who_holds_the_role(
        self,
        words: String,
        record: Record,
        tenant: String,
    )
        requires
            call_ensures(Occupancy::describe, (&self,), words),
            call_ensures(Record::describe, (&record,), tenant),
        ensures
            self is Free ==> words@ == "free"@,
            self == Occupancy::HeldBy(record) ==> words@ == "held by "@ + tenant@,
            self is HeldAnonymously ==> words@ == "held by an unidentified tenant"@,
            words@ == self.words(),
            tenant@ == record.words(),
    {
    }
}

impl ClaimError {
    /// A failure says what it is, and hands out the very trouble underneath where
    /// there is one.
    pub proof fn law_a_failure_says_what_it_is(
        self,
        words: String,
        source: Option<&io::Error>,
    )
        requires
            call_ensures(ClaimError::describe, (&self,), words),
            call_ensures(ClaimError::source, (&self,), source),
        ensures
            self is Occupied ==> words@ == "the role is already held"@ && source is None,
            self matches ClaimError::Io(error) ==> words@
                == "the role's lock file could not be taken"@ && source == Some(&error),
            self matches ClaimError::Unpublishable(error) ==> words@
                == "the role's record could not be published"@ && source == Some(&error),
    {
    }
}

/// Two processes never write to the same temporary file.
pub proof fn law_two_processes_never_share_a_temporary_file(
    pid: u32,
    other: u32,
    suffix: String,
    other_suffix: String,
)
    requires
        call_ensures(temporary_suffix, (pid,), suffix),
        call_ensures(temporary_suffix, (other,), other_suffix),
    ensures
        suffix@ == other_suffix@ <==> pid == other,
        suffix@ == "."@ + decimal(pid as nat) + ".tmp"@,
{
    reveal_strlit(".");
    reveal_strlit(".tmp");
    lemma_decimal_is_read_back(pid as nat);
    lemma_decimal_is_read_back(other as nat);
    let digits = decimal(pid as nat);
    let other_digits = decimal(other as nat);
    let ends = ("."@, ".tmp"@);
    assert(suffix@ == ends.0 + digits + ends.1);
    assert(other_suffix@ == ends.0 + other_digits + ends.1);
    if suffix@ == other_suffix@ {
        assert(suffix@.len() == ends.0.len() + digits.len() + ends.1.len());
        assert(other_suffix@.len() == ends.0.len() + other_digits.len() + ends.1.len());
        assert(digits =~= suffix@.subrange(1, digits.len() + 1int));
        assert(other_digits =~= other_suffix@.subrange(1, digits.len() + 1int));
    }
}

impl PublishStep {
    /// A step that is done leads to the next of the four, or to the end behind the
    /// last; a step that failed ends the publishing, and the temporary file is
    /// removed exactly where it was the rename that failed.
    pub proof fn law_publishing_goes_step_by_step(self, done: bool, next: PublishNext)
        requires
            call_ensures(PublishStep::next, (self, done), next),
        ensures
            !done ==> next == (PublishNext::Failed { discard: self is Rename }),
            done && self is Create ==> next == PublishNext::Take(PublishStep::Write),
            done && self is Write ==> next == PublishNext::Take(PublishStep::Sync),
            done && self is Sync ==> next == PublishNext::Take(PublishStep::Rename),
            done && self is Rename ==> next == PublishNext::Published,
    {
    }
}

} // verus!
