//! One process per role, bound to one run of its owner.
//!
//! An advisory lock keeps a helper process unique - until the process that
//! spawned it goes away. The orphan keeps the lock, so nothing can start the
//! helper the new run needs, and it does not look broken: it looks exactly
//! like a healthy tenant.
//!
//! This crate pairs the lock with an identity - which run a tenant serves - so
//! an onlooker can recognize an obsolete tenant ([`verdict`](fn@verdict)) and
//! the tenant can recognize that its own run is over ([`Allegiance`]).
//!
//! Roles come in three kinds: peers negotiate with each other, subordinates
//! serve one run of an owner, and user-owned ones are never evicted at all.
//! This crate implements the subordinate kind.
//!
//! # Two rules to keep
//!
//! 1. **[`Compat`] must be readable across incompatible versions.** A helper
//!    decides whether to stay by reading its owner's identity, so that read
//!    cannot depend on the two agreeing: give `Compat` a frozen channel - a
//!    protocol method whose position and encoding never change - and read
//!    [`Run`] only once the fingerprints match.
//! 2. **The claim record must be tolerant.** [`Record::parse`] ignores unknown
//!    keys, so a record from a newer build still reads, and an unreadable one
//!    degrades to [`Occupancy::HeldAnonymously`] rather than to an error.
//!
//! Anonymity is the state both rules exist to avoid, because a tenant nobody
//! can identify cannot be reasoned with - only [`eviction::evict_anonymous`]
//! can remove it, and only by recognizing the image it runs. [`Role::claim`]
//! therefore has the record published itself and hands the role back if that
//! fails, so the state is reached by inheritance from older installs rather
//! than manufactured anew.
//!
//! # What decides and what acts
//!
//! The library decides: it never spawns, signals, sleeps or exits, and opens
//! neither lock nor claim file. It looks at the process table, in
//! [`Tenant::look_up`] and [`processes::running_from`]. Everything else it needs
//! to know of the world its caller tells it, and everything it wants done it
//! hands to its caller: a [`PublishStep`] to take, an [`eviction::Order`] to send
//! to a process, a [`supervision::Turn`] to carry out.
//!
//! # What is proved
//!
//! Every function states in its contract what it returns, over a model of its
//! arguments: text as a sequence of characters, a span of time as its
//! nanoseconds, a stateful value by its view. What holds across functions
//! stands in proof functions whose names begin with `law_`.

pub mod eviction;
pub mod format;
pub mod identity;
pub mod paths;
pub mod processes;
pub mod record;
pub mod role;
pub mod standing;
pub mod supervision;
pub mod text;
pub mod time;
pub mod verdict;

pub use identity::{Compat, Identity, Run};
pub use processes::{candidates_among, candidates_listed, running_from, Listed};
pub use record::{Corroboration, MalformedRecord, Record, Sameness, Tenant};
pub use role::{
    temporary_suffix, ClaimError, LockAttempt, Occupancy, PublishNext, PublishStep, Role, Tenancy,
};
pub use standing::{Allegiance, Because, Standing, Sworn};
pub use verdict::{verdict, Verdict};
