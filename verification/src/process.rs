//! The process table and the lookup of a process by name.

use crate::matching::{chars_of, name_matches, name_matches_chars};
use sysinfo::{PidExt, ProcessExt, System, SystemExt};
use vstd::prelude::*;

verus! {

/// One row of the process table: the identifier and the name of a process.
#[derive(Clone, Debug, PartialEq, Eq)]
pub struct ProcessEntry {
    pub pid: u32,
    pub name: String,
}

/// What a lookup by name gives.
#[derive(Clone, Copy, Debug, PartialEq, Eq, Structural)]
pub enum Lookup {
    /// The identifier of the first matching process, ready to be signalled.
    Found(i32),
    /// No process matches.
    NotFound,
    /// The first matching process has an identifier that no signal can be
    /// addressed to.
    OutOfRange(u32),
}

/// Row `i` matches the filter and no row before it does.
pub open spec fn is_first_match(filter: Seq<char>, table: Seq<ProcessEntry>, i: int) -> bool {
    &&& 0 <= i < table.len()
    &&& name_matches(filter, table[i].name@)
    &&& forall|j: int| 0 <= j < i ==> !#[trigger] name_matches(filter, table[j].name@)
}

/// Some row of the table matches the filter.
pub open spec fn some_match(filter: Seq<char>, table: Seq<ProcessEntry>) -> bool {
    exists|i: int| 0 <= i < table.len() && #[trigger] name_matches(filter, table[i].name@)
}

/// What the identifier of a matching process becomes.
pub open spec fn classify(pid: u32) -> Lookup {
    if pid <= i32::MAX {
        Lookup::Found(pid as i32)
    } else {
        Lookup::OutOfRange(pid)
    }
}

/// The lookup: the first matching row of the table decides.
pub open spec fn lookup(filter: Seq<char>, table: Seq<ProcessEntry>) -> Lookup {
    if exists|i: int| is_first_match(filter, table, i) {
        classify(table[choose|i: int| is_first_match(filter, table, i)].pid)
    } else {
        Lookup::NotFound
    }
}

/// At most one row is the first match.
pub proof fn lemma_first_match_unique(
    filter: Seq<char>,
    table: Seq<ProcessEntry>,
    i: int,
    k: int,
)
    requires
        is_first_match(filter, table, i),
        is_first_match(filter, table, k),
    ensures
        i == k,
{
    if i < k {
        assert(!name_matches(filter, table[i].name@));
    } else if k < i {
        assert(!name_matches(filter, table[k].name@));
    }
}

/// A table with a match has a first match.
pub proof fn lemma_first_match_exists(filter: Seq<char>, table: Seq<ProcessEntry>, i: int)
    requires
        0 <= i < table.len(),
        name_matches(filter, table[i].name@),
    ensures
        exists|k: int| 0 <= k <= i && is_first_match(filter, table, k),
    decreases i,
{
    if exists|j: int| 0 <= j < i && name_matches(filter, table[j].name@) {
        let j = choose|j: int| 0 <= j < i && name_matches(filter, table[j].name@);
        lemma_first_match_exists(filter, table, j);
    } else {
        assert(is_first_match(filter, table, i));
    }
}

/// The lookup finds a process exactly when some process of the table matches,
/// and what it finds is a matching process with none before it.
pub proof fn lemma_lookup_finds_iff_some_match(filter: Seq<char>, table: Seq<ProcessEntry>)
    ensures
        lookup(filter, table) != Lookup::NotFound <==> some_match(filter, table),
        some_match(filter, table) ==> exists|i: int|
            is_first_match(filter, table, i) && lookup(filter, table) == classify(table[i].pid),
{
    if some_match(filter, table) {
        let i = choose|i: int| 0 <= i < table.len() && name_matches(filter, table[i].name@);
        lemma_first_match_exists(filter, table, i);
        let k = choose|k: int| is_first_match(filter, table, k);
        assert(lookup(filter, table) == classify(table[k].pid));
    } else {
        assert forall|i: int| !is_first_match(filter, table, i) by {
            if is_first_match(filter, table, i) {
                assert(name_matches(filter, table[i].name@));
            }
        }
    }
}

/// Without a matching process every lookup answers "not found", however often
/// it is asked.
pub proof fn lemma_lookup_without_match(filter: Seq<char>, table: Seq<ProcessEntry>)
    requires
        !some_match(filter, table),
    ensures
        lookup(filter, table) == Lookup::NotFound,
{
    lemma_lookup_finds_iff_some_match(filter, table);
}

/// Looks a process up in a given table: the first row whose lowercase name
/// contains the filter.
pub fn find_process(filter: &str, table: &Vec<ProcessEntry>) -> (r: Lookup)
    ensures
        r == lookup(filter@, table@),
        r != Lookup::NotFound <==> some_match(filter@, table@),
{
    proof {
        lemma_lookup_finds_iff_some_match(filter@, table@);
    }
    let needle = chars_of(filter);
    let mut i: usize = 0;
    while i < table.len()
        invariant
            i <= table.len(),
            needle@ == filter@,
            forall|j: int| 0 <= j < i ==> !#[trigger] name_matches(filter@, table@[j].name@),
        decreases table.len() - i,
    {
        if name_matches_chars(&needle, table[i].name.as_str()) {
            proof {
                assert(is_first_match(filter@, table@, i as int));
                let k = choose|k: int| is_first_match(filter@, table@, k);
                lemma_first_match_unique(filter@, table@, i as int, k);
            }
            let pid: u32 = table[i].pid;
            if pid <= 2147483647u32 {
                return Lookup::Found(pid as i32);
            } else {
                return Lookup::OutOfRange(pid);
            }
        }
        i = i + 1;
    }
    proof {
        assert forall|k: int| !is_first_match(filter@, table@, k) by {
            if is_first_match(filter@, table@, k) {
                assert(name_matches(filter@, table@[k].name@));
            }
        }
    }
    Lookup::NotFound
}

/// Reads the process table through `sysinfo`: `System::new_all`, then
/// `refresh_all`, then one row for each entry of `processes()`, with
/// `as_u32` of the key and `name()` of the value. Trusted, and nothing is
/// claimed of the rows: they are whatever runs at the moment of the call, in
/// the order in which the map is walked.
#[verifier::external_body]
fn read_process_table() -> (table: Vec<ProcessEntry>) {
    let mut system = System::new_all();
    system.refresh_all();
    let mut table = Vec::new();
    for (pid, process) in system.processes() {
        table.push(ProcessEntry { pid: pid.as_u32(), name: process.name().to_string() });
    }
    table
}

/// The processes that run now, freshly read at each call.
pub fn running_processes() -> (table: Vec<ProcessEntry>) {
    read_process_table()
}

/// Looks the process up among those that run now. The table is read anew at
/// each call, so the answer is that of `find_process` on some table.
pub fn get_mosquitto_pid(process_name: &str) -> (r: Lookup)
    ensures
        exists|table: Seq<ProcessEntry>| r == lookup(process_name@, table),
        r matches Lookup::Found(pid) ==> pid >= 0,
        r matches Lookup::OutOfRange(pid) ==> pid > i32::MAX,
{
    let table = running_processes();
    find_process(process_name, &table)
}

} // verus!
