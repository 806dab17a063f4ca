//! Looking at live processes.

use crate::paths::same_path;
use crate::record::Tenant;
use std::path::{Path, PathBuf};
use sysinfo::{Pid, ProcessesToUpdate, System};
use vstd::prelude::*;

verus! {

/// One entry of the process table as `sysinfo` lists it.
#[derive(Debug, PartialEq, Eq)]
pub struct Listed {
    /// Its pid.
    pub pid: u32,
    /// When it was started, in seconds since the epoch.
    pub started_at: u64,
    /// The executable behind it, where that is known.
    pub image: Option<PathBuf>,
    /// Whether it is a thread rather than a process. Linux lists the threads of
    /// a process beside it, each under an id of its own.
    pub is_thread: bool,
}

/// The entry of that pid in the process table as it is now, if there is one:
/// what [`sysinfo::System::process`] finds after a refresh of that one pid. It
/// lists an entry under its own pid; the rest of the answer is the machine's,
/// and nothing is said of it.
#[verifier::external_body]
fn listed(pid: u32) -> (process: Option<Listed>)
    ensures
        process matches Some(process) ==> process.pid == pid,
{
    let pid = Pid::from_u32(pid);
    let mut system = System::new();
    system.refresh_processes(ProcessesToUpdate::Some(&[pid]), true);
    system.process(pid).map(
        |process|
            Listed {
                pid: process.pid().as_u32(),
                started_at: process.start_time(),
                image: process.exe().map(Path::to_path_buf),
                is_thread: process.thread_kind().is_some(),
            },
    )
}

/// The process table as it is now, in no particular order: what
/// [`sysinfo::System::processes`] holds after a refresh of everything - every
/// process, and on Linux every thread. It is a map from pids, so no pid is
/// listed twice; the rest of the answer is the machine's, and nothing is said of
/// it.
#[verifier::external_body]
fn all_listed() -> (processes: Vec<Listed>)
    ensures
        forall|i: int, j: int|
            0 <= i < j < processes.len() ==> (#[trigger] processes@[i]).pid != (
            #[trigger] processes@[j]).pid,
{
    let mut system = System::new();
    system.refresh_processes(ProcessesToUpdate::All, true);
    system.processes().iter().map(
        |(pid, process)|
            Listed {
                pid: pid.as_u32(),
                started_at: process.start_time(),
                image: process.exe().map(Path::to_path_buf),
                is_thread: process.thread_kind().is_some(),
            },
    ).collect()
}

impl Listed {
    /// The entry as a tenant: every fact there is to be had about it is known.
    pub open spec fn tenant(self) -> Tenant {
        Tenant { pid: self.pid, started_at: Some(self.started_at), image: self.image }
    }

    /// The entry, with every fact there is to be had about it.
    fn into_tenant(self) -> (tenant: Tenant)
        ensures
            tenant == self.tenant(),
    {
        Tenant { pid: self.pid, started_at: Some(self.started_at), image: self.image }
    }
}

/// The process that an entry stands for, if there is an entry and it stands for
/// one.
pub open spec fn process_in(entry: Option<Listed>) -> Option<Tenant> {
    match entry {
        Some(entry) if !entry.is_thread => Some(entry.tenant()),
        _ => None,
    }
}

/// The processes that `entries` stand for, threads left out.
pub open spec fn processes_in(entries: Seq<Listed>) -> Seq<Tenant> {
    entries.filter(|entry: Listed| !entry.is_thread).map_values(|entry: Listed| entry.tenant())
}

/// Those of `processes` that run from exactly the image `expected` and are not
/// the process `mine`.
pub open spec fn candidates_of(processes: Seq<Tenant>, expected: PathBuf, mine: u32) -> Seq<
    Tenant,
> {
    processes.filter(|tenant: Tenant| tenant.is_candidate(expected, mine))
}

/// Whether a look at the process table saw `found` behind `pid`.
pub closed spec fn was_seen(pid: u32, found: Option<Tenant>) -> bool {
    exists|entry: Option<Listed>| #[trigger]
        call_ensures(listed, (pid,), entry) && found == process_in(entry)
}

/// Whether a look at the process table saw that `candidates` run from exactly
/// the image `expected`, the process `mine` aside.
pub closed spec fn were_seen(candidates: Seq<Tenant>, expected: PathBuf, mine: u32) -> bool {
    exists|entries: Vec<Listed>| #[trigger]
        call_ensures(all_listed, (), entries) && candidates == candidates_of(
            processes_in(entries@),
            expected,
            mine,
        )
}

/// What is seen behind a pid is a live process of that pid.
pub proof fn law_what_is_seen_is_live(pid: u32, found: Option<Tenant>)
    requires
        was_seen(pid, found),
    ensures
        found matches Some(tenant) ==> tenant.pid == pid && tenant.is_live(),
{
}

/// Whether no two of `processes` have a pid in common.
pub open spec fn told_apart(processes: Seq<Tenant>) -> bool {
    forall|i: int, j: int|
        0 <= i < j < processes.len() ==> (#[trigger] processes[i]).pid != (
        #[trigger] processes[j]).pid
}

/// What is seen to run from an image are as many live processes, each of which
/// runs from exactly that image, and none of which is the one that is left
/// aside.
pub proof fn law_what_is_seen_runs_from_the_image(
    candidates: Seq<Tenant>,
    expected: PathBuf,
    mine: u32,
)
    requires
        were_seen(candidates, expected, mine),
    ensures
        candidates.len() <= usize::MAX,
        told_apart(candidates),
        forall|i: int|
            0 <= i < candidates.len() ==> (#[trigger] candidates[i]).is_candidate(expected, mine)
                && candidates[i].is_live(),
{
    let entries = choose|entries: Vec<Listed>| #[trigger]
        call_ensures(all_listed, (), entries) && candidates == candidates_of(
            processes_in(entries@),
            expected,
            mine,
        );
    let no_thread = |entry: Listed| !entry.is_thread;
    let wanted = |tenant: Tenant| tenant.is_candidate(expected, mine);
    let processes = processes_in(entries@);
    lemma_filter_keeps_apart(entries@, no_thread, |entry: Listed| entry.pid);
    entries@.lemma_filter_len(no_thread);
    processes.lemma_filter_len(wanted);
    lemma_filter_keeps_apart(processes, wanted, |tenant: Tenant| tenant.pid);
    assert(entries.len() <= usize::MAX);
    assert forall|i: int| 0 <= i < candidates.len() implies (
    #[trigger] candidates[i]).is_candidate(expected, mine) && candidates[i].is_live() by {
        processes.lemma_filter_pred(wanted, i);
        assert(processes.filter(wanted).contains(candidates[i]));
        processes.lemma_filter_contains_rev(wanted, candidates[i]);
    }
}

/// What has an id of its own keeps it when others are left out.
proof fn lemma_filter_keeps_apart<A>(all: Seq<A>, wanted: spec_fn(A) -> bool, id: spec_fn(A) -> u32)
    requires
        forall|i: int, j: int|
            0 <= i < j < all.len() ==> id(#[trigger] all[i]) != id(#[trigger] all[j]),
    ensures
        forall|i: int, j: int|
            0 <= i < j < all.filter(wanted).len() ==> id(#[trigger] all.filter(wanted)[i]) != id(
                #[trigger] all.filter(wanted)[j],
            ),
    decreases all.len(),
{
    reveal(Seq::filter);
    if all.len() > 0 {
        let rest = all.drop_last();
        lemma_filter_keeps_apart(rest, wanted, id);
        assert forall|i: int| 0 <= i < rest.filter(wanted).len() implies id(
            #[trigger] rest.filter(wanted)[i],
        ) != id(all.last()) by {
            assert(rest.filter(wanted).contains(rest.filter(wanted)[i]));
            rest.lemma_filter_contains_rev(wanted, rest.filter(wanted)[i]);
            let k = choose|k: int| 0 <= k < rest.len() && rest[k] == rest.filter(wanted)[i];
            assert(all[k] == rest.filter(wanted)[i]);
            assert(all[all.len() - 1] == all.last());
        }
    }
}

impl Tenant {
    /// Whether this is what a look at a live process yields: its start time is
    /// always known.
    pub open spec fn is_live(self) -> bool {
        self.started_at is Some
    }

    /// The live process behind `pid`, if there is one, with every fact there is
    /// to be had about it.
    #[must_use]
    pub fn look_up(pid: u32) -> (found: Option<Tenant>)
        ensures
            was_seen(pid, found),
            found matches Some(tenant) ==> tenant.pid == pid && tenant.is_live(),
    {
        let entry = listed(pid);
        assert(call_ensures(listed, (pid,), entry));
        Tenant::found(entry)
    }

    /// The live process behind what was found in the process table, if a process
    /// was, with every fact there is to be had about it.
    #[must_use]
    pub fn found(entry: Option<Listed>) -> (found: Option<Tenant>)
        ensures
            found == process_in(entry),
    {
        match entry {
            Some(entry) => {
                if entry.is_thread {
                    None
                } else {
                    Some(entry.into_tenant())
                }
            },
            None => None,
        }
    }

    /// Whether the tenant runs from exactly the image `expected`, and is not the
    /// process `mine`.
    pub open spec fn is_candidate(self, expected: PathBuf, mine: u32) -> bool {
        &&& self.pid != mine
        &&& self.image matches Some(image) && same_path(image, expected)
    }
}

/// Those of `processes` whose executable is exactly `expected`, never including
/// the process `mine`.
#[must_use]
pub fn candidates_among(processes: Vec<Tenant>, expected: &PathBuf, mine: u32) -> (candidates: Vec<
    Tenant,
>)
    ensures
        candidates@ == candidates_of(processes@, *expected, mine),
{
    let mut candidates: Vec<Tenant> = Vec::new();
    let ghost wanted = |tenant: Tenant| tenant.is_candidate(*expected, mine);
    let mut i: usize = 0;
    proof {
        reveal(Seq::filter);
    }
    while i < processes.len()
        invariant
            i <= processes.len(),
            wanted == (|tenant: Tenant| tenant.is_candidate(*expected, mine)),
            candidates@ == processes@.take(i as int).filter(wanted),
        decreases processes.len() - i,
    {
        let process = &processes[i];
        proof {
            reveal(Seq::filter);
            assert(processes@.take(i + 1).drop_last() == processes@.take(i as int));
        }
        let matches_image: bool = match &process.image {
            Some(image) => *image == *expected,
            None => false,
        };
        if process.pid != mine && matches_image {
            candidates.push(process.clone());
        }
        i = i + 1;
    }
    assert(processes@.take(i as int) == processes@);
    candidates
}

/// Those of the listed processes whose executable is exactly `expected`, never
/// including the process `mine`, with every fact there is to be had about each.
/// A thread runs from the image of its process and is no process of its own, so
/// threads do not count.
#[must_use]
pub fn candidates_listed(entries: Vec<Listed>, expected: &PathBuf, mine: u32) -> (candidates: Vec<
    Tenant,
>)
    ensures
        candidates@ == candidates_of(processes_in(entries@), *expected, mine),
{
    let ghost all = entries@;
    let ghost no_thread = |entry: Listed| !entry.is_thread;
    let mut processes: Vec<Tenant> = Vec::new();
    proof {
        reveal(Seq::filter);
    }
    for entry in iter: entries
        invariant
            iter.seq() == all,
            no_thread == (|entry: Listed| !entry.is_thread),
            processes@ == processes_in(all.take(iter.index())),
    {
        proof {
            reveal(Seq::filter);
            assert(all.take(iter.index() + 1).drop_last() == all.take(iter.index()));
            assert(all.take(iter.index() + 1).last() == entry);
            assert(!entry.is_thread ==> processes_in(all.take(iter.index() + 1)) =~= processes_in(
                all.take(iter.index()),
            ).push(entry.tenant()));
        }
        if !entry.is_thread {
            processes.push(entry.into_tenant());
        }
    }
    assert(all.take(all.len() as int) == all);
    candidates_among(processes, expected, mine)
}

/// Live processes whose executable is exactly `expected`, never including
/// `mine` - a single-binary application can run its own helper mode, and
/// signalling ourselves is never the intent.
#[must_use]
pub fn running_from(expected: &PathBuf, mine: u32) -> (candidates: Vec<Tenant>)
    ensures
        were_seen(candidates@, *expected, mine),
        told_apart(candidates@),
        forall|i: int|
            0 <= i < candidates.len() ==> (#[trigger] candidates@[i]).is_candidate(*expected, mine)
                && candidates@[i].is_live(),
{
    let entries: Vec<Listed> = all_listed();
    assert(call_ensures(all_listed, (), entries));
    let candidates = candidates_listed(entries, expected, mine);
    proof {
        law_what_is_seen_runs_from_the_image(candidates@, *expected, mine);
    }
    candidates
}

/// Whether `entry` is what the process table was seen to hold of `pid`.
pub closed spec fn was_listed(pid: u32, entry: Option<Listed>) -> bool {
    call_ensures(listed, (pid,), entry)
}

/// Whether `entries` is what the process table was seen to hold.
pub closed spec fn were_listed(entries: Vec<Listed>) -> bool {
    call_ensures(all_listed, (), entries)
}

impl Tenant {
    /// An entry of the process table is a live process exactly where it is no
    /// thread, and then every fact of the entry is a fact of the process.
    pub proof fn law_an_entry_is_taken_with_all_its_facts(
        entry: Option<Listed>,
        found: Option<Tenant>,
    )
        requires
            call_ensures(Tenant::found, (entry,), found),
        ensures
            found is Some <==> entry is Some && !entry->0.is_thread,
            found is Some ==> {
                &&& found->0.pid == entry->0.pid
                &&& found->0.started_at == Some(entry->0.started_at)
                &&& found->0.image == entry->0.image
            },
    {
    }

    /// What a look behind a pid finds is the process that the table holds of that
    /// pid, if it holds one, with every fact of it, and nobody where it holds
    /// none.
    pub proof fn law_a_look_finds_what_the_table_holds(pid: u32, found: Option<Tenant>)
        requires
            call_ensures(Tenant::look_up, (pid,), found),
        ensures
            exists|entry: Option<Listed>| #[trigger]
                was_listed(pid, entry) && {
                    &&& found is Some <==> entry is Some && !entry->0.is_thread
                    &&& found is Some ==> {
                        &&& found->0.pid == pid
                        &&& found->0.started_at == Some(entry->0.started_at)
                        &&& found->0.image == entry->0.image
                    }
                },
    {
        let entry = choose|entry: Option<Listed>| #[trigger]
            call_ensures(listed, (pid,), entry) && found == process_in(entry);
        assert(was_listed(pid, entry));
    }
}

/// A process is a candidate by itself, whoever else runs: one more process adds
/// itself to the candidates, behind the others, exactly where it is not `mine`
/// and is known to run from exactly the image `expected`; and among no processes
/// there is no candidate.
pub proof fn law_one_more_process_is_one_more_candidate_or_none(
    processes: Vec<Tenant>,
    process: Tenant,
    more: Vec<Tenant>,
    expected: PathBuf,
    mine: u32,
    candidates: Vec<Tenant>,
    of_more: Vec<Tenant>,
)
    requires
        more@ == processes@.push(process),
        call_ensures(candidates_among, (processes, &expected, mine), candidates),
        call_ensures(candidates_among, (more, &expected, mine), of_more),
    ensures
        of_more@ == (if process.pid != mine && process.image is Some && same_path(
            process.image->0,
            expected,
        ) {
            candidates@.push(process)
        } else {
            candidates@
        }),
        processes.len() == 0 ==> candidates.len() == 0,
{
    reveal(Seq::filter);
    assert(more@.drop_last() == processes@);
    assert(more@.last() == process);
}

/// The same holds of the entries of a process table: one more entry adds the
/// process it stands for exactly where it is no thread, is not `mine` and is
/// known to run from exactly the image `expected`.
pub proof fn law_one_more_entry_is_one_more_candidate_or_none(
    entries: Vec<Listed>,
    entry: Listed,
    more: Vec<Listed>,
    expected: PathBuf,
    mine: u32,
    candidates: Vec<Tenant>,
    of_more: Vec<Tenant>,
)
    requires
        more@ == entries@.push(entry),
        call_ensures(candidates_listed, (entries, &expected, mine), candidates),
        call_ensures(candidates_listed, (more, &expected, mine), of_more),
    ensures
        of_more@ == (if !entry.is_thread && entry.pid != mine && entry.image is Some && same_path(
            entry.image->0,
            expected,
        ) {
            candidates@.push(
                Tenant {
                    pid: entry.pid,
                    started_at: Some(entry.started_at),
                    image: entry.image,
                },
            )
        } else {
            candidates@
        }),
        entries.len() == 0 ==> candidates.len() == 0,
{
    reveal(Seq::filter);
    let no_thread = |entry: Listed| !entry.is_thread;
    assert(more@.drop_last() == entries@);
    assert(more@.last() == entry);
    if !entry.is_thread {
        assert(more@.filter(no_thread) == entries@.filter(no_thread).push(entry));
        assert(processes_in(more@) =~= processes_in(entries@).push(entry.tenant()));
        assert(processes_in(more@).drop_last() =~= processes_in(entries@));
    }
}

/// What runs from an image is what the process table holds of it, all of it and
/// nothing else.
pub proof fn law_what_runs_is_what_the_table_holds(
    expected: PathBuf,
    mine: u32,
    running: Vec<Tenant>,
)
    requires
        call_ensures(running_from, (&expected, mine), running),
    ensures
        exists|entries: Vec<Listed>| #[trigger]
            were_listed(entries) && forall|candidates: Vec<Tenant>| #[trigger]
                call_ensures(candidates_listed, (entries, &expected, mine), candidates)
                    ==> candidates@ == running@,
{
    let entries = choose|entries: Vec<Listed>| #[trigger]
        call_ensures(all_listed, (), entries) && running@ == candidates_of(
            processes_in(entries@),
            expected,
            mine,
        );
    assert(were_listed(entries));
}

} // verus!
