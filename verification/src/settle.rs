//! The settle delay: how long to wait after a change before signalling.

use crate::matching::chars_of;
use vstd::prelude::*;

verus! {

/// Nanoseconds in one second.
pub const NANOS_PER_SEC: u32 = 1_000_000_000u32;

/// The most digits that the text of a wait time may hold. With so few, the
/// seconds that the text stands for stay far below the largest `u64`.
pub const MAX_WAIT_TIME_DIGITS: usize = 11;

/// A span of time of whole seconds and a fraction below one second.
#[derive(Clone, Copy, Debug, PartialEq, Eq)]
pub struct SettleDelay {
    secs: u64,
    nanos: u32,
}

/// Why a wait time was not accepted.
#[derive(Clone, Debug, PartialEq, Eq)]
pub enum WaitTimeError {
    /// The text is no duration; the message says why.
    Invalid(String),
    /// The fraction of a second is a second or more.
    FractionOutOfRange,
    /// The text holds more digits than a wait time may have.
    TooManyDigits,
}

/// Whether a character is one of the digits `0` to `9`.
pub open spec fn is_digit(c: char) -> bool {
    '0' <= c && c <= '9'
}

/// The number of digits in a text.
pub open spec fn digit_count(text: Seq<char>) -> nat
    decreases text.len(),
{
    if text.len() == 0 {
        0
    } else {
        digit_count(text.drop_last()) + if is_digit(text.last()) {
            1nat
        } else {
            0nat
        }
    }
}

/// What `humantime::parse_duration` gives for a text: the whole seconds and
/// the nanoseconds below a second of the duration, or the message of its error.
pub uninterp spec fn parsed_duration(text: Seq<char>) -> Result<(u64, u32), Seq<char>>;

impl WaitTimeError {
    /// The error in words.
    pub fn message(&self) -> (r: String)
        ensures
            self matches WaitTimeError::Invalid(m) ==> r@ == m@,
            self is FractionOutOfRange ==> r@ == "the fraction of a second is out of range"@,
            self is TooManyDigits ==> r@ == "the wait time holds too many digits"@,
    {
        match self {
            WaitTimeError::Invalid(m) => m.clone(),
            WaitTimeError::FractionOutOfRange => "the fraction of a second is out of range".to_owned(),
            WaitTimeError::TooManyDigits => "the wait time holds too many digits".to_owned(),
        }
    }
}

impl View for SettleDelay {
    type V = nat;

    /// The delay in nanoseconds.
    closed spec fn view(&self) -> nat {
        (self.secs * NANOS_PER_SEC + self.nanos) as nat
    }
}

impl SettleDelay {
    #[verifier::type_invariant]
    spec fn fraction_in_range(self) -> bool {
        self.nanos < NANOS_PER_SEC
    }

    /// A delay of `secs` seconds and `nanos` nanoseconds, where `nanos` is
    /// less than a second.
    pub fn new(secs: u64, nanos: u32) -> (r: Option<SettleDelay>)
        ensures
            r is Some <==> nanos < NANOS_PER_SEC,
            r matches Some(d) ==> d@ == secs * NANOS_PER_SEC + nanos,
    {
        if nanos < NANOS_PER_SEC {
            Some(SettleDelay { secs, nanos })
        } else {
            None
        }
    }

    /// No delay at all.
    pub fn zero() -> (r: SettleDelay)
        ensures
            r@ == 0,
    {
        SettleDelay { secs: 0, nanos: 0 }
    }

    /// A delay of `millis` milliseconds.
    pub fn from_millis(millis: u64) -> (r: SettleDelay)
        ensures
            r@ == millis * 1_000_000,
    {
        let secs: u64 = millis / 1000;
        let rest: u64 = millis % 1000;
        let nanos: u32 = (rest * 1_000_000) as u32;
        assert(secs * 1_000_000_000 + rest * 1_000_000 == millis * 1_000_000) by (nonlinear_arith)
            requires
                secs == millis / 1000,
                rest == millis % 1000,
        ;
        SettleDelay { secs, nanos }
    }

    /// The whole seconds of the delay.
    pub fn as_secs(&self) -> (r: u64)
        ensures
            r == self@ / (NANOS_PER_SEC as nat),
    {
        proof {
            use_type_invariant(self);
            lemma_split(self.secs as nat, self.nanos as nat);
        }
        self.secs
    }

    /// What is left of the delay below a second, in nanoseconds.
    pub fn subsec_nanos(&self) -> (r: u32)
        ensures
            r == self@ % (NANOS_PER_SEC as nat),
            r < NANOS_PER_SEC,
    {
        proof {
            use_type_invariant(self);
            lemma_split(self.secs as nat, self.nanos as nat);
        }
        self.nanos
    }

    /// Whether there is nothing to wait for.
    pub fn is_zero(&self) -> (r: bool)
        ensures
            r == (self@ == 0),
    {
        self.secs == 0 && self.nanos == 0
    }
}

proof fn lemma_split(secs: nat, nanos: nat)
    requires
        nanos < 1_000_000_000,
    ensures
        (secs * 1_000_000_000 + nanos) / 1_000_000_000 == secs,
        (secs * 1_000_000_000 + nanos) % 1_000_000_000 == nanos,
{
    assert((secs * 1_000_000_000 + nanos) / 1_000_000_000 == secs
        && (secs * 1_000_000_000 + nanos) % 1_000_000_000 == nanos) by (nonlinear_arith)
        requires
            nanos < 1_000_000_000,
    ;
}

impl Default for SettleDelay {
    /// Half a second.
    fn default() -> (r: SettleDelay)
        ensures
            r@ == 500_000_000,
    {
        SettleDelay::from_millis(500)
    }
}

/// Counts the digits of a text.
pub fn count_digits(text: &str) -> (n: usize)
    ensures
        n == digit_count(text@),
{
    let chars = chars_of(text);
    let mut n: usize = 0;
    let mut i: usize = 0;
    while i < chars.len()
        invariant
            i <= chars.len(),
            n <= i,
            n == digit_count(chars@.take(i as int)),
        decreases chars.len() - i,
    {
        let c = chars[i];
        proof {
            let next = chars@.take(i + 1);
            assert(next.drop_last() =~= chars@.take(i as int));
            assert(next.last() == c);
        }
        if '0' <= c && c <= '9' {
            n = n + 1;
        }
        i = i + 1;
    }
    assert(chars@.take(i as int) =~= chars@);
    n
}

/// Calls `humantime::parse_duration` and takes the result apart with
/// `Duration::as_secs` and `Duration::subsec_nanos`, or keeps the error's
/// message. Trusted: the result depends on the text alone, and the part below
/// a second is less than a second. Texts with many digits are left out: on
/// some of them the seconds reach the largest `u64` and the call does not
/// return.
#[verifier::external_body]
fn humantime_parse(text: &str) -> (r: Result<(u64, u32), String>)
    requires
        digit_count(text@) <= MAX_WAIT_TIME_DIGITS,
    ensures
        match r {
            Ok(parts) => parsed_duration(text@) == Ok::<(u64, u32), Seq<char>>(parts) && parts.1
                < NANOS_PER_SEC,
            Err(message) => parsed_duration(text@) == Err::<(u64, u32), Seq<char>>(message@),
        },
{
    match humantime::parse_duration(text) {
        Ok(duration) => Ok((duration.as_secs(), duration.subsec_nanos())),
        Err(error) => Err(error.to_string()),
    }
}

/// Whether `delay` is what the parsed parts stand for.
pub open spec fn settles_to(
    parsed: Result<(u64, u32), Seq<char>>,
    delay: Result<SettleDelay, WaitTimeError>,
) -> bool {
    match parsed {
        Ok((secs, nanos)) => if nanos < NANOS_PER_SEC {
            delay matches Ok(d) && d@ == secs * NANOS_PER_SEC + nanos
        } else {
            delay == Err::<SettleDelay, WaitTimeError>(WaitTimeError::FractionOutOfRange)
        },
        Err(message) => delay matches Err(WaitTimeError::Invalid(m)) && m@ == message,
    }
}

/// The parsed parts as they stand in contracts.
pub open spec fn parsed_view(parsed: Result<(u64, u32), String>) -> Result<(u64, u32), Seq<char>> {
    match parsed {
        Ok(parts) => Ok(parts),
        Err(message) => Err(message@),
    }
}

/// Makes a settle delay of the parts that parsing gave, or says why there is
/// none.
pub fn settle_from_parsed(parsed: Result<(u64, u32), String>) -> (r: Result<
    SettleDelay,
    WaitTimeError,
>)
    ensures
        settles_to(parsed_view(parsed), r),
{
    match parsed {
        Ok((secs, nanos)) => match SettleDelay::new(secs, nanos) {
            Some(delay) => Ok(delay),
            None => Err(WaitTimeError::FractionOutOfRange),
        },
        Err(message) => Err(WaitTimeError::Invalid(message)),
    }
}

/// Reads a wait time written for people, such as `500ms` or `2s`. A text with
/// more digits than a wait time may have is refused unread.
pub fn parse_wait_time(text: &str) -> (r: Result<SettleDelay, WaitTimeError>)
    ensures
        r == Err::<SettleDelay, WaitTimeError>(WaitTimeError::TooManyDigits) <==> digit_count(
            text@,
        ) > MAX_WAIT_TIME_DIGITS,
        digit_count(text@) <= MAX_WAIT_TIME_DIGITS ==> settles_to(parsed_duration(text@), r),
        !(r matches Err(WaitTimeError::FractionOutOfRange)),
{
    if count_digits(text) > MAX_WAIT_TIME_DIGITS {
        return Err(WaitTimeError::TooManyDigits);
    }
    settle_from_parsed(humantime_parse(text))
}

} // verus!
