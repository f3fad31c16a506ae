//! Delivery of the hang-up signal to a process found by name.

use crate::process::{find_process, lookup, running_processes, Lookup, ProcessEntry};
use nix::sys::signal::{kill, Signal};
use nix::unistd::Pid;
use vstd::prelude::*;

verus! {

/// What became of one attempt to signal a process.
#[derive(Clone, Copy, Debug, PartialEq, Eq, Structural)]
pub enum SignalOutcome {
    /// The signal was handed to the process with this identifier.
    Delivered(i32),
    /// No process matched: nothing was sent.
    NotFound,
    /// The matching process has an identifier that no signal can be addressed
    /// to: nothing was sent.
    OutOfRange(u32),
    /// The system refused the signal for this process, with this error number.
    Failed { pid: i32, errno: i32 },
    /// The matching process has an identifier of zero or below, which stands
    /// for a group of processes and not for one: nothing was sent.
    NotOneProcess(i32),
}

impl SignalOutcome {
    /// The process that a signal was addressed to, if one was.
    pub open spec fn target(self) -> Option<i32> {
        match self {
            SignalOutcome::Delivered(pid) => Some(pid),
            SignalOutcome::Failed { pid, errno } => Some(pid),
            SignalOutcome::NotFound => None,
            SignalOutcome::OutOfRange(_) => None,
            SignalOutcome::NotOneProcess(_) => None,
        }
    }

    /// Whether the attempt addressed a signal to some process.
    pub fn attempted(&self) -> (r: bool)
        ensures
            r == self.target().is_some(),
    {
        match self {
            SignalOutcome::Delivered(_) => true,
            SignalOutcome::Failed { .. } => true,
            SignalOutcome::NotFound => false,
            SignalOutcome::OutOfRange(_) => false,
            SignalOutcome::NotOneProcess(_) => false,
        }
    }
}

/// The process that a lookup allows to signal: the one it found, where the
/// identifier stands for one process.
pub open spec fn target_of(found: Lookup) -> Option<i32> {
    match found {
        Lookup::Found(pid) => if pid > 0 {
            Some(pid)
        } else {
            None
        },
        Lookup::NotFound => None,
        Lookup::OutOfRange(_) => None,
    }
}

/// What a delivery to `pid` reports, given what the system answered.
pub open spec fn outcome_of(pid: i32, answer: Result<(), i32>) -> SignalOutcome {
    match answer {
        Ok(_) => SignalOutcome::Delivered(pid),
        Err(errno) => SignalOutcome::Failed { pid, errno },
    }
}

/// Whether `outcome` reports a signal addressed to `pid`, taken or refused by
/// the system.
pub open spec fn addressed_to(pid: i32, outcome: SignalOutcome) -> bool {
    outcome == SignalOutcome::Delivered(pid) || (exists|errno: i32|
        outcome == (SignalOutcome::Failed { pid, errno }))
}

/// Whether `outcome` is a possible end of an attempt after the lookup gave
/// `found`: without a target nothing is sent, with a target the signal goes to
/// it and to no other.
pub open spec fn follows_lookup(found: Lookup, outcome: SignalOutcome) -> bool {
    match found {
        Lookup::Found(pid) => if pid > 0 {
            addressed_to(pid, outcome)
        } else {
            outcome == SignalOutcome::NotOneProcess(pid)
        },
        Lookup::NotFound => outcome == SignalOutcome::NotFound,
        Lookup::OutOfRange(pid) => outcome == SignalOutcome::OutOfRange(pid),
    }
}

/// Calls `nix::sys::signal::kill` with `Signal::SIGHUP` for the process
/// `Pid::from_raw(pid)`, and gives the error as its number. Trusted, and
/// nothing is claimed of the answer: the system decides. Identifiers of zero
/// and below are left out: the call takes them for groups of processes.
#[verifier::external_body]
fn kill_hangup(pid: i32) -> (answer: Result<(), i32>)
    requires
        pid > 0,
{
    match kill(Pid::from_raw(pid), Signal::SIGHUP) {
        Ok(()) => Ok(()),
        Err(errno) => Err(errno as i32),
    }
}

/// Reports a delivery to `pid` from the system's answer.
pub fn delivery_outcome(pid: i32, answer: Result<(), i32>) -> (r: SignalOutcome)
    ensures
        r == outcome_of(pid, answer),
{
    match answer {
        Ok(_) => SignalOutcome::Delivered(pid),
        Err(errno) => SignalOutcome::Failed { pid, errno },
    }
}

/// Sends the hang-up signal to one process and reports what the system
/// answered: a failure is never swallowed. The identifier is that of one
/// process, so it is above zero.
pub fn send_sighup(process_id: i32) -> (r: SignalOutcome)
    requires
        process_id > 0,
    ensures
        addressed_to(process_id, r),
        r.target() == Some(process_id),
{
    let answer = kill_hangup(process_id);
    let r = delivery_outcome(process_id, answer);
    proof {
        if let Err(errno) = answer {
            assert(r == (SignalOutcome::Failed { pid: process_id, errno }));
        }
    }
    r
}

/// Looks the process up in the given table and, where one is found, sends it
/// the hang-up signal. A match whose identifier is zero is reported and not
/// signalled.
pub fn signal_process_in(process_name: &str, table: &Vec<ProcessEntry>) -> (r: SignalOutcome)
    ensures
        follows_lookup(lookup(process_name@, table@), r),
        r.target() == target_of(lookup(process_name@, table@)),
{
    match find_process(process_name, table) {
        Lookup::Found(pid) => if pid > 0 {
            send_sighup(pid)
        } else {
            SignalOutcome::NotOneProcess(pid)
        },
        Lookup::NotFound => SignalOutcome::NotFound,
        Lookup::OutOfRange(pid) => SignalOutcome::OutOfRange(pid),
    }
}

/// Looks the process up among those that run now and sends it the hang-up
/// signal. The table is read anew at each call, so a process that came back
/// under another identifier is found again.
pub fn send_sighup_to_process(process_name: &str) -> (r: SignalOutcome)
    ensures
        exists|table: Seq<ProcessEntry>| #[trigger]
            follows_lookup(lookup(process_name@, table), r),
{
    let table = running_processes();
    signal_process_in(process_name, &table)
}

/// Where no process matches, an attempt reports "not found" and addresses no
/// signal to anyone.
pub proof fn lemma_no_match_no_signal(
    filter: Seq<char>,
    table: Seq<ProcessEntry>,
    outcome: SignalOutcome,
)
    requires
        !crate::process::some_match(filter, table),
        follows_lookup(lookup(filter, table), outcome),
    ensures
        outcome == SignalOutcome::NotFound,
        outcome.target().is_none(),
{
    crate::process::lemma_lookup_without_match(filter, table);
}

/// Two attempts in a row, each on a table without a matching process, both
/// report "not found", and neither addresses a signal to anyone.
pub proof fn lemma_repeated_attempts_without_match(
    filter: Seq<char>,
    first_table: Seq<ProcessEntry>,
    second_table: Seq<ProcessEntry>,
    first: SignalOutcome,
    second: SignalOutcome,
)
    requires
        !crate::process::some_match(filter, first_table),
        !crate::process::some_match(filter, second_table),
        follows_lookup(lookup(filter, first_table), first),
        follows_lookup(lookup(filter, second_table), second),
    ensures
        lookup(filter, first_table) == Lookup::NotFound,
        lookup(filter, second_table) == Lookup::NotFound,
        first == SignalOutcome::NotFound,
        second == SignalOutcome::NotFound,
        first.target().is_none() && second.target().is_none(),
{
    lemma_no_match_no_signal(filter, first_table, first);
    lemma_no_match_no_signal(filter, second_table, second);
}

/// An attempt addresses a signal to a process only if that process is the
/// first of the table whose name matches.
pub proof fn lemma_signal_goes_to_first_match(
    filter: Seq<char>,
    table: Seq<ProcessEntry>,
    outcome: SignalOutcome,
    pid: i32,
)
    requires
        follows_lookup(lookup(filter, table), outcome),
        outcome.target() == Some(pid),
    ensures
        exists|i: int|
            crate::process::is_first_match(filter, table, i) && table[i].pid == pid,
{
    crate::process::lemma_lookup_finds_iff_some_match(filter, table);
    assert(lookup(filter, table) == Lookup::Found(pid));
    let i = choose|i: int|
        crate::process::is_first_match(filter, table, i) && lookup(filter, table)
            == crate::process::classify(table[i].pid);
    assert(crate::process::is_first_match(filter, table, i) && table[i].pid == pid);
}

} // verus!
