//! Decision logic of a watcher that turns changes of one file into a hang-up
//! signal for a process found by name.
//!
//! The crate holds what can be stated exactly: how a process is picked from a
//! process table, what a signal attempt reports, how the settle delay is read,
//! and how the watch loop answers each message of the change feed. Waiting for
//! the feed and sleeping are left to the program around it.

pub mod matching;
pub mod process;
pub mod settle;
pub mod signal;
pub mod watch;

pub use matching::{
    chars_of, contains_chars, matches_lowered, name_matches_chars, name_matches_filter,
};
pub use process::{find_process, get_mosquitto_pid, running_processes, Lookup, ProcessEntry};
pub use settle::{
    count_digits, parse_wait_time, settle_from_parsed, SettleDelay, WaitTimeError,
    MAX_WAIT_TIME_DIGITS,
};
pub use signal::{
    delivery_outcome, send_sighup, send_sighup_to_process, signal_process_in, SignalOutcome,
};
pub use watch::{WatchAction, WatchError, WatchEvent, WatchLoop, DEBOUNCE_WINDOW_SECS};
