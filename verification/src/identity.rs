//! Who an owner process is: which run, and what it can talk to.

use vstd::prelude::*;

verus! {

/// One run of an owner process.
///
/// Equality means "the same process instance" - the fact a version number
/// cannot carry, since a restart of the same build reports the same version.
#[derive(Clone, Copy, Debug, PartialEq, Eq, Hash, PartialOrd, Ord, Structural)]
pub struct Run(u64);

impl View for Run {
    type V = u64;

    closed spec fn view(&self) -> u64 {
        self.0
    }
}

impl Run {
    /// The token of that raw form.
    pub closed spec fn of(raw: u64) -> Run {
        Run(raw)
    }

    /// Whether `run` is what a process that keeps its token in one place gets
    /// when it asks for it: the token that is there already, or a new one, which
    /// stays there.
    pub open spec fn is_kept(run: Run, before: Option<Run>, after: Option<Run>) -> bool {
        &&& after == Some(run)
        &&& before matches Some(drawn) ==> run == drawn
    }

    /// A process keeps one run token: whatever it is handed first it is handed
    /// again.
    pub proof fn law_a_process_keeps_one_run_token(
        first: Run,
        second: Run,
        before: Option<Run>,
        between: Option<Run>,
        after: Option<Run>,
    )
        requires
            Run::is_kept(first, before, between),
            Run::is_kept(second, between, after),
        ensures
            first == second,
            Run::is_kept(second, before, after),
    {
    }

    /// This process's run token, stable for the rest of its life.
    ///
    /// `mine` is where the process keeps its token. The first call draws it;
    /// every later one hands the same token back and leaves `draw` alone. Only
    /// inequality between runs is required of what is drawn, which rules out a
    /// pid (reused) and a timestamp (clocks step backwards).
    #[must_use]
    pub fn mint<F: FnOnce() -> u64>(mine: &mut Option<Run>, draw: F) -> (run: Run)
        requires
            *old(mine) is None ==> draw.requires(()),
        ensures
            Run::is_kept(run, *old(mine), *final(mine)),
            *old(mine) is None ==> draw.ensures((), run@),
    {
        match *mine {
            Some(drawn) => drawn,
            None => {
                let run = Run(draw());
                *mine = Some(run);
                run
            },
        }
    }

    /// Rebuild a token from its wire or file representation.
    #[must_use]
    pub fn from_raw(raw: u64) -> (run: Run)
        ensures
            run == Run::of(raw),
            run@ == raw,
    {
        Run(raw)
    }

    /// The token as carried on a wire or in a claim record.
    #[must_use]
    pub fn get(self) -> (raw: u64)
        ensures
            raw == self@,
    {
        self.0
    }

    /// A token is its raw form: it survives a round trip through it, and two
    /// that share it are the same run.
    pub proof fn law_raw_form_identifies(self, other: Run)
        ensures
            Run::of(self@) == self,
            self@ == other@ <==> self == other,
    {
    }
}

/// What an owner and a helper must agree on to serve each other: a protocol
/// version, an ABI revision, a build fingerprint.
///
/// A helper seeing a different value is not out of date by chance; it is from
/// an install that has been replaced.
#[derive(Clone, Copy, Debug, PartialEq, Eq, Hash, PartialOrd, Ord, Structural)]
pub struct Compat(u64);

impl View for Compat {
    type V = u64;

    closed spec fn view(&self) -> u64 {
        self.0
    }
}

impl Compat {
    /// The fingerprint of that raw value.
    pub closed spec fn of(raw: u64) -> Compat {
        Compat(raw)
    }

    /// Build a fingerprint from its raw value.
    #[must_use]
    pub fn from_raw(raw: u64) -> (compat: Compat)
        ensures
            compat == Compat::of(raw),
            compat@ == raw,
    {
        Compat(raw)
    }

    /// The value as carried on a wire or in a claim record.
    #[must_use]
    pub fn get(self) -> (raw: u64)
        ensures
            raw == self@,
    {
        self.0
    }

    /// A fingerprint is its raw form: it survives a round trip through it, and
    /// two that share it are the same.
    pub proof fn law_raw_form_identifies(self, other: Compat)
        ensures
            Compat::of(self@) == self,
            self@ == other@ <==> self == other,
    {
    }
}

impl From<u64> for Compat {
    fn from(raw: u64) -> (compat: Compat)
        ensures
            compat == Compat::of(raw),
            compat@ == raw,
    {
        Compat(raw)
    }
}

impl vstd::std_specs::convert::FromSpecImpl<u64> for Compat {
    open spec fn obeys_from_spec() -> bool {
        true
    }

    open spec fn from_spec(raw: u64) -> Compat {
        Compat::of(raw)
    }
}

impl From<u32> for Compat {
    fn from(raw: u32) -> (compat: Compat)
        ensures
            compat == Compat::of(raw as u64),
            compat@ == raw,
    {
        Compat(raw as u64)
    }
}

impl vstd::std_specs::convert::FromSpecImpl<u32> for Compat {
    open spec fn obeys_from_spec() -> bool {
        true
    }

    open spec fn from_spec(raw: u32) -> Compat {
        Compat::of(raw as u64)
    }
}

/// Identity of one run of an owner process.
///
/// [`Compat`] has to be readable by a helper that may be incompatible, so it
/// needs a channel frozen across versions; [`Run`] is only consulted once the
/// two fingerprints agree. See the crate docs.
#[derive(Clone, Copy, Debug, PartialEq, Eq, Hash, Structural)]
pub struct Identity {
    /// Which run of the owner.
    pub run: Run,
    /// What that run can talk to.
    pub compat: Compat,
}

impl Identity {
    /// Pair a run with the compatibility fingerprint it serves.
    #[must_use]
    pub fn new(run: Run, compat: Compat) -> (identity: Identity)
        ensures
            identity.run == run,
            identity.compat == compat,
    {
        Identity { run, compat }
    }

    /// This process's identity for `compat`: its own run token, kept in `mine`
    /// as [`Run::mint`] says, beside the fingerprint.
    #[must_use]
    pub fn mine<F: FnOnce() -> u64>(
        mine: &mut Option<Run>,
        draw: F,
        compat: Compat,
    ) -> (identity: Identity)
        requires
            *old(mine) is None ==> draw.requires(()),
        ensures
            identity.compat == compat,
            Run::is_kept(identity.run, *old(mine), *final(mine)),
            *old(mine) is None ==> draw.ensures((), identity.run@),
    {
        Identity::new(Run::mint(mine, draw), compat)
    }
}

impl Run {
    /// The token that a process asks for is the one it keeps, or else the one
    /// that is drawn, as it is drawn; either way it is kept from then on.
    pub proof fn law_a_token_is_drawn_once_and_as_it_is<F: FnOnce() -> u64>(
        before: Option<Run>,
        after: Option<Run>,
        draw: F,
        run: Run,
        raw: u64,
    )
        requires
            exists|mine: &mut Option<Run>| #[trigger]
                call_ensures(Run::mint::<F>, (mine, draw), run) && *mine == before && *final(mine)
                    == after,
            call_ensures(Run::get, (run,), raw),
        ensures
            after == Some(run),
            before is Some ==> before == Some(run),
            before is None ==> draw.ensures((), raw),
    {
    }

    /// A token goes through its raw form unchanged, in both directions, so two
    /// runs are the same exactly where their raw forms are.
    pub proof fn law_a_token_survives_its_raw_form(
        raw: u64,
        run: Run,
        back: u64,
        other: Run,
        other_raw: u64,
    )
        requires
            call_ensures(Run::from_raw, (raw,), run),
            call_ensures(Run::get, (run,), back),
            call_ensures(Run::get, (other,), other_raw),
        ensures
            back == raw,
            other_raw == raw <==> other == run,
    {
        run.law_raw_form_identifies(other);
    }
}

impl Compat {
    /// A fingerprint goes through its raw form unchanged, in both directions, so
    /// two are the same exactly where their raw forms are.
    pub proof fn law_a_fingerprint_survives_its_raw_form(
        raw: u64,
        compat: Compat,
        back: u64,
        other: Compat,
        other_raw: u64,
    )
        requires
            call_ensures(Compat::from_raw, (raw,), compat),
            call_ensures(Compat::get, (compat,), back),
            call_ensures(Compat::get, (other,), other_raw),
        ensures
            back == raw,
            other_raw == raw <==> other == compat,
    {
        compat.law_raw_form_identifies(other);
    }

    /// A number of either width makes the fingerprint of that value.
    pub proof fn law_a_number_makes_its_fingerprint(
        wide: u64,
        narrow: u32,
        of_wide: Compat,
        of_narrow: Compat,
        raw: u64,
        narrow_raw: u64,
    )
        requires
            call_ensures(<Compat as From<u64>>::from, (wide,), of_wide),
            call_ensures(<Compat as From<u32>>::from, (narrow,), of_narrow),
            call_ensures(Compat::get, (of_wide,), raw),
            call_ensures(Compat::get, (of_narrow,), narrow_raw),
        ensures
            raw == wide,
            narrow_raw == narrow,
    {
    }
}

impl Identity {
    /// An identity is the run and the fingerprint it was made of.
    pub proof fn law_an_identity_is_its_parts(run: Run, compat: Compat, identity: Identity)
        requires
            call_ensures(Identity::new, (run, compat), identity),
        ensures
            identity == (Identity { run, compat }),
    {
    }

    /// A process's identity is the token it keeps, drawn where there is none yet,
    /// beside the fingerprint it asks with.
    pub proof fn law_an_identity_carries_the_kept_token<F: FnOnce() -> u64>(
        before: Option<Run>,
        after: Option<Run>,
        draw: F,
        compat: Compat,
        identity: Identity,
        raw: u64,
    )
        requires
            exists|mine: &mut Option<Run>| #[trigger]
                call_ensures(Identity::mine::<F>, (mine, draw, compat), identity) && *mine == before
                    && *final(mine) == after,
            call_ensures(Run::get, (identity.run,), raw),
        ensures
            identity.compat == compat,
            after == Some(identity.run),
            before is Some ==> before == Some(identity.run),
            before is None ==> draw.ensures((), raw),
    {
    }
}

} // verus!
