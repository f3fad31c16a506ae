//! Case-insensitive substring matching of process names.

use vstd::prelude::*;
use vstd::string::StrSliceExecFns;

verus! {

/// `needle` stands in `hay` at position `at`.
pub open spec fn occurs_at(hay: Seq<char>, needle: Seq<char>, at: int) -> bool {
    &&& 0 <= at
    &&& at + needle.len() <= hay.len()
    &&& hay.subrange(at, at + needle.len()) == needle
}

/// `needle` is a contiguous part of `hay`.
pub open spec fn contains_seq(hay: Seq<char>, needle: Seq<char>) -> bool {
    exists|at: int| occurs_at(hay, needle, at)
}

/// The lowercase form that `str::to_lowercase` gives for a string.
pub uninterp spec fn lowercase_of(s: Seq<char>) -> Seq<char>;

/// A process name matches a filter when its lowercase form contains the
/// filter. The filter itself is taken as written.
pub open spec fn name_matches(filter: Seq<char>, name: Seq<char>) -> bool {
    contains_seq(lowercase_of(name), filter)
}

/// Calls `str::to_lowercase`. Trusted: the result is the lowercase form of the
/// argument, which depends on the argument alone.
#[verifier::external_body]
fn lowercase(s: &str) -> (r: String)
    ensures
        r@ == lowercase_of(s@),
{
    s.to_lowercase()
}

/// The characters of a string, in order.
pub fn chars_of(s: &str) -> (chars: Vec<char>)
    ensures
        chars@ == s@,
{
    let n: usize = s.unicode_len();
    let mut chars: Vec<char> = Vec::new();
    let mut i: usize = 0;
    while i < n
        invariant
            n == s@.len(),
            i <= n,
            chars@ == s@.subrange(0, i as int),
        decreases n - i,
    {
        let c = s.get_char(i);
        chars.push(c);
        i = i + 1;
        assert(chars@ =~= s@.subrange(0, i as int));
    }
    assert(s@.subrange(0, n as int) =~= s@);
    chars
}

/// Whether `needle` stands in `hay` at position `at`.
fn occurs_here(hay: &Vec<char>, needle: &Vec<char>, at: usize) -> (r: bool)
    requires
        at + needle.len() <= hay.len(),
    ensures
        r == occurs_at(hay@, needle@, at as int),
{
    let ghost part = hay@.subrange(at as int, at + needle.len());
    let mut k: usize = 0;
    while k < needle.len()
        invariant
            k <= needle.len(),
            at + needle.len() <= hay.len(),
            part == hay@.subrange(at as int, at + needle.len()),
            forall|j: int| 0 <= j < k ==> part[j] == needle@[j],
        decreases needle.len() - k,
    {
        if hay[at + k] != needle[k] {
            assert(part[k as int] != needle@[k as int]);
            return false;
        }
        k = k + 1;
    }
    assert(part =~= needle@);
    true
}

/// Whether `needle` is a contiguous part of `hay`.
pub fn contains_chars(hay: &Vec<char>, needle: &Vec<char>) -> (r: bool)
    ensures
        r == contains_seq(hay@, needle@),
{
    if needle.len() > hay.len() {
        return false;
    }
    let last: usize = hay.len() - needle.len();
    let mut at: usize = 0;
    while at < last
        invariant
            last == hay.len() - needle.len(),
            at <= last,
            forall|j: int| 0 <= j < at ==> !occurs_at(hay@, needle@, j),
        decreases last - at,
    {
        if occurs_here(hay, needle, at) {
            return true;
        }
        at = at + 1;
    }
    occurs_here(hay, needle, last)
}

/// Whether an already lowercased name contains the filter.
pub fn matches_lowered(lowered_name: &str, filter: &str) -> (r: bool)
    ensures
        r == contains_seq(lowered_name@, filter@),
{
    let hay = chars_of(lowered_name);
    let needle = chars_of(filter);
    contains_chars(&hay, &needle)
}

/// Whether a process name matches the filter, given by its characters,
/// ignoring the case of the name.
pub fn name_matches_chars(filter: &Vec<char>, name: &str) -> (r: bool)
    ensures
        r == name_matches(filter@, name@),
{
    let lowered = lowercase(name);
    let hay = chars_of(lowered.as_str());
    contains_chars(&hay, filter)
}

/// Whether a process name matches the filter, ignoring the case of the name.
pub fn name_matches_filter(filter: &str, name: &str) -> (r: bool)
    ensures
        r == name_matches(filter@, name@),
{
    let needle = chars_of(filter);
    name_matches_chars(&needle, name)
}

/// The empty filter matches every name.
pub proof fn lemma_empty_filter_matches(name: Seq<char>)
    ensures
        name_matches(Seq::<char>::empty(), name),
{
    let hay = lowercase_of(name);
    assert(hay.subrange(0, 0) =~= Seq::<char>::empty());
    assert(occurs_at(hay, Seq::<char>::empty(), 0));
}

} // verus!
