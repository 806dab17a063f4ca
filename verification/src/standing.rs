//! The subordinate's side: am I still the helper this owner wants?

use crate::identity::{Compat, Identity, Run};
use crate::text::{decimal, push_decimal};
use vstd::prelude::*;

verus! {

/// The owner run a helper serves.
///
/// A helper holds its role for as long as it lives, so it has to notice when
/// the run it belongs to is over - otherwise it keeps a role its replacement
/// needs. Show it the owner's [`Identity`] on every handshake and it will say
/// whether it is still the right helper.
///
/// The owner run is remembered the first time it is seen, unless
/// [`Allegiance::to`] was told up front - which is worth doing whenever the
/// owner can pass its run down at spawn time, because then even the very first
/// handshake catches a helper that outlived its owner.
#[derive(Debug)]
pub struct Allegiance {
    ours: Compat,
    owner: Option<Run>,
}

/// What an [`Allegiance`] goes by: what the helper speaks, and the run it has
/// sworn to once there is one.
pub struct Sworn {
    pub ours: Compat,
    pub owner: Option<Run>,
}

impl Sworn {
    /// How the owner that answers as `owner` is judged. Its run counts only
    /// where the two fingerprints agree.
    pub open spec fn judges(self, owner: Identity) -> Standing {
        if owner.compat != self.ours {
            Standing::Superseded(Because::Incompatible { ours: self.ours, owner: owner.compat })
        } else {
            match self.owner {
                Some(sworn) if sworn != owner.run => Standing::Superseded(
                    Because::NewRun { sworn, owner: owner.run },
                ),
                _ => Standing::Current,
            }
        }
    }

    /// What is left after that judgement: the first compatible owner to answer
    /// is the one sworn to.
    pub open spec fn after(self, owner: Identity) -> Sworn {
        if owner.compat == self.ours && self.owner is None {
            Sworn { owner: Some(owner.run), ..self }
        } else {
            self
        }
    }

    /// What is left after each of `owners` has answered in turn.
    pub open spec fn after_all(self, owners: Seq<Identity>) -> Sworn
        decreases owners.len(),
    {
        if owners.len() == 0 {
            self
        } else {
            self.after_all(owners.drop_last()).after(owners.last())
        }
    }

    /// Whoever answers, a helper goes on speaking what it speaks, and the run it
    /// has sworn to once stays the run it serves.
    pub proof fn law_an_oath_is_kept(self, owners: Seq<Identity>)
        ensures
            self.after_all(owners).ours == self.ours,
            self.owner is Some ==> self.after_all(owners).owner == self.owner,
        decreases owners.len(),
    {
        if owners.len() > 0 {
            self.law_an_oath_is_kept(owners.drop_last());
        }
    }

    /// The first owner seen is adopted, not refused, as long as the two can talk
    /// to each other.
    pub proof fn law_the_first_owner_is_adopted(self, owner: Identity)
        requires
            self.owner is None,
            owner.compat == self.ours,
        ensures
            self.judges(owner) is Current,
            self.after(owner).owner == Some(owner.run),
    {
    }

    /// A helper that was told at spawn time whom it serves catches an owner that
    /// is another run on its very first handshake.
    pub proof fn law_a_hint_catches_an_orphan_at_once(ours: Compat, sworn: Run, owner: Identity)
        requires
            owner.run != sworn,
        ensures
            (Sworn { ours, owner: Some(sworn) }).judges(owner) is Superseded,
    {
    }

    /// Incompatibility outranks the run: an owner that speaks something else is
    /// reported as that, whichever run it claims to be, and is never sworn to.
    pub proof fn law_incompatibility_outranks_the_run(self, owner: Identity)
        requires
            owner.compat != self.ours,
        ensures
            self.judges(owner) == Standing::Superseded(
                Because::Incompatible { ours: self.ours, owner: owner.compat },
            ),
            self.after(owner) == self,
    {
    }

    /// To be superseded is final: an owner that was judged to supersede this
    /// helper is judged so, for the same reason, whoever answered in between.
    pub proof fn law_superseded_is_final(self, owner: Identity, owners: Seq<Identity>)
        requires
            self.judges(owner) is Superseded,
        ensures
            self.after(owner) == self,
            self.after_all(owners).judges(owner) == self.judges(owner),
    {
        self.law_an_oath_is_kept(owners);
    }

    /// A helper that has sworn to a run keeps its role for as long as that run,
    /// speaking the same, answers - whoever else answered in between.
    pub proof fn law_the_same_owner_keeps_the_helper(self, owner: Identity, owners: Seq<Identity>)
        requires
            self.judges(owner) is Current,
        ensures
            self.after(owner).after_all(owners).judges(owner) is Current,
    {
        self.after(owner).law_an_oath_is_kept(owners);
    }
}

impl View for Allegiance {
    type V = Sworn;

    closed spec fn view(&self) -> Sworn {
        Sworn { ours: self.ours, owner: self.owner }
    }
}

impl Allegiance {
    /// Serve whichever owner run answers first.
    #[must_use]
    pub fn new(ours: Compat) -> (allegiance: Allegiance)
        ensures
            allegiance@ == (Sworn { ours, owner: None }),
    {
        Allegiance { ours, owner: None }
    }

    /// Serve one known owner run - the one that spawned this process.
    #[must_use]
    pub fn to(ours: Compat, owner: Run) -> (allegiance: Allegiance)
        ensures
            allegiance@ == (Sworn { ours, owner: Some(owner) }),
    {
        let mut allegiance = Allegiance::new(ours);
        allegiance.owner = Some(owner);
        allegiance
    }

    /// Judge the owner that just answered.
    ///
    /// [`Standing::Superseded`] is final: this process cannot become the right
    /// helper again, so the useful response is to release the role and exit -
    /// which this crate deliberately leaves to the caller, because a library
    /// has no business ending a process.
    #[must_use]
    pub fn observe(&mut self, owner: Identity) -> (standing: Standing)
        ensures
            standing == old(self)@.judges(owner),
            final(self)@ == old(self)@.after(owner),
    {
        if owner.compat != self.ours {
            return Standing::Superseded(
                Because::Incompatible { ours: self.ours, owner: owner.compat },
            );
        }
        match self.owner {
            Some(sworn) => {
                if sworn != owner.run {
                    Standing::Superseded(Because::NewRun { sworn, owner: owner.run })
                } else {
                    Standing::Current
                }
            },
            None => {
                self.owner = Some(owner.run);
                Standing::Current
            },
        }
    }

    /// The owner run this helper serves, once one is known.
    #[must_use]
    pub fn owner(&self) -> (owner: Option<Run>)
        ensures
            owner == self@.owner,
    {
        self.owner
    }
}

/// Whether a helper is still the one its owner wants.
#[derive(Clone, Copy, Debug, PartialEq, Eq, Structural)]
pub enum Standing {
    /// Still serving the right owner.
    Current,
    /// Superseded: give the role up.
    Superseded(Because),
}

/// What made a helper obsolete.
#[allow(inconsistent_fields)]
#[derive(Clone, Copy, Debug, PartialEq, Eq, Structural)]
pub enum Because {
    /// The owner cannot be talked to at all - this helper is from an install
    /// that has since been replaced.
    Incompatible {
        /// What this helper speaks.
        ours: Compat,
        /// What the owner speaks.
        owner: Compat,
    },
    /// The owner is a different run than the one this helper serves. Same
    /// build, most likely - a restart, which a version number cannot see.
    NewRun {
        /// The run this helper was serving.
        sworn: Run,
        /// The run now answering.
        owner: Run,
    },
}

impl Because {
    /// The reason in words.
    pub open spec fn words(self) -> Seq<char> {
        match self {
            Because::Incompatible { ours, owner } => "owner speaks "@ + decimal(owner@ as nat)
                + " and this helper speaks "@ + decimal(ours@ as nat),
            Because::NewRun { sworn, owner } => "owner is run "@ + decimal(owner@ as nat)
                + " and this helper serves run "@ + decimal(sworn@ as nat),
        }
    }

    /// Say why, for a log line.
    #[must_use]
    pub fn describe(&self) -> (words: String)
        ensures
            words@ == self.words(),
    {
        match *self {
            Because::Incompatible { ours, owner } => {
                let mut words = String::from_str("owner speaks ");
                push_decimal(&mut words, owner.get());
                words.append(" and this helper speaks ");
                push_decimal(&mut words, ours.get());
                words
            },
            Because::NewRun { sworn, owner } => {
                let mut words = String::from_str("owner is run ");
                push_decimal(&mut words, owner.get());
                words.append(" and this helper serves run ");
                push_decimal(&mut words, sworn.get());
                words
            },
        }
    }
}

impl Allegiance {
    /// A helper still serves the owner that answers exactly where the two speak
    /// the same and the owner is the run that the helper has sworn to, or the
    /// helper has not sworn to any. What supersedes it says why: another
    /// fingerprint before another run, each with what the helper goes by and what
    /// the owner answered. Nothing but a first owner that speaks the same is
    /// remembered.
    pub proof fn law_an_owner_is_judged_by_fingerprint_and_then_by_run(
        before: Allegiance,
        after: Allegiance,
        owner: Identity,
        standing: Standing,
    )
        requires
            exists|allegiance: &mut Allegiance| #[trigger]
                call_ensures(Allegiance::observe, (allegiance, owner), standing) && *allegiance
                    == before && *final(allegiance) == after,
        ensures
            standing is Current <==> owner.compat == before@.ours && (before@.owner is None
                || before@.owner == Some(owner.run)),
            owner.compat != before@.ours ==> standing == Standing::Superseded(
                Because::Incompatible { ours: before@.ours, owner: owner.compat },
            ),
            owner.compat == before@.ours && before@.owner is Some && before@.owner != Some(
                owner.run,
            ) ==> standing == Standing::Superseded(
                Because::NewRun { sworn: before@.owner->0, owner: owner.run },
            ),
            after@.ours == before@.ours,
            before@.owner is Some || owner.compat != before@.ours ==> after@.owner == before@.owner,
            before@.owner is None && owner.compat == before@.ours ==> after@.owner == Some(
                owner.run,
            ),
    {
    }

    /// A helper that is told whom it serves serves that run from the start, and
    /// one that is not serves nobody yet; both speak what they are told to.
    pub proof fn law_a_helper_serves_whom_it_is_told_to(
        ours: Compat,
        run: Run,
        hinted: Allegiance,
        free: Allegiance,
        serves: Option<Run>,
        nobody: Option<Run>,
    )
        requires
            call_ensures(Allegiance::to, (ours, run), hinted),
            call_ensures(Allegiance::new, (ours,), free),
            call_ensures(Allegiance::owner, (&hinted,), serves),
            call_ensures(Allegiance::owner, (&free,), nobody),
        ensures
            serves == Some(run),
            nobody is None,
            hinted@.ours == ours && hinted@.owner == serves,
            free@.ours == ours && free@.owner == nobody,
    {
    }
}

impl Because {
    /// A log line names both sides, the owner's first.
    pub proof fn law_a_log_line_names_both_sides(self, words: String)
        requires
            call_ensures(Because::describe, (&self,), words),
        ensures
            self matches Because::Incompatible { ours, owner } ==> words@ == "owner speaks "@
                + decimal(owner@ as nat) + " and this helper speaks "@ + decimal(ours@ as nat),
            self matches Because::NewRun { sworn, owner } ==> words@ == "owner is run "@ + decimal(
                owner@ as nat,
            ) + " and this helper serves run "@ + decimal(sworn@ as nat),
    {
    }
}

} // verus!
