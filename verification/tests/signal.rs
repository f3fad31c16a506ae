use filewatch_signaler::{
    delivery_outcome, send_sighup, send_sighup_to_process, signal_process_in, ProcessEntry,
    SignalOutcome,
};

const NO_SUCH_PID: i32 = i32::MAX;

fn entry(pid: u32, name: &str) -> ProcessEntry {
    ProcessEntry { pid, name: name.to_string() }
}

#[test]
fn delivery_outcome_reports_success() {
    assert_eq!(delivery_outcome(4242, Ok(())), SignalOutcome::Delivered(4242));
}

#[test]
fn delivery_outcome_reports_failure_with_error_number() {
    assert_eq!(delivery_outcome(4242, Err(1)), SignalOutcome::Failed { pid: 4242, errno: 1 });
    assert_eq!(delivery_outcome(7, Err(3)), SignalOutcome::Failed { pid: 7, errno: 3 });
}

#[test]
fn attempted_tells_whether_a_signal_was_addressed() {
    assert!(SignalOutcome::Delivered(1).attempted());
    assert!(SignalOutcome::Failed { pid: 1, errno: 3 }.attempted());
    assert!(!SignalOutcome::NotFound.attempted());
    assert!(!SignalOutcome::OutOfRange(4_000_000_000).attempted());
    assert!(!SignalOutcome::NotOneProcess(0).attempted());
}

#[test]
fn signal_to_vanished_process_is_surfaced() {
    let expected = SignalOutcome::Failed { pid: NO_SUCH_PID, errno: nix::errno::Errno::ESRCH as i32 };
    assert_eq!(send_sighup(NO_SUCH_PID), expected);
}

#[test]
fn signal_goes_to_the_first_match_of_the_table() {
    let table = vec![entry(1, "init"), entry(NO_SUCH_PID as u32, "mydaemon"), entry(1, "mydaemon")];
    let outcome = signal_process_in("myd", &table);
    assert_eq!(
        outcome,
        SignalOutcome::Failed { pid: NO_SUCH_PID, errno: nix::errno::Errno::ESRCH as i32 }
    );
}

#[test]
fn no_match_sends_nothing() {
    let table = vec![entry(1, "init"), entry(2, "sshd")];
    assert_eq!(signal_process_in("myd", &table), SignalOutcome::NotFound);
    assert_eq!(signal_process_in("myd", &table), SignalOutcome::NotFound);
}

#[test]
fn out_of_range_identifier_sends_nothing() {
    let table = vec![entry(3_000_000_000, "mydaemon")];
    assert_eq!(signal_process_in("myd", &table), SignalOutcome::OutOfRange(3_000_000_000));
}

#[test]
fn absent_process_is_not_signalled() {
    let name = "no-such-process-qzxjv-7f3a91";
    let first = send_sighup_to_process(name);
    let second = send_sighup_to_process(name);
    assert_eq!(first, SignalOutcome::NotFound);
    assert_eq!(second, SignalOutcome::NotFound);
    assert!(!first.attempted());
}

#[test]
fn identifier_zero_is_reported_and_not_signalled() {
    let table = vec![entry(0, "mydaemon"), entry(1, "mydaemon")];
    let outcome = signal_process_in("myd", &table);
    assert_eq!(outcome, SignalOutcome::NotOneProcess(0));
    assert!(!outcome.attempted());
}

#[test]
fn identifier_one_above_zero_is_signalled() {
    let table = vec![entry(1, "init"), entry(i32::MAX as u32, "mydaemon")];
    assert!(signal_process_in("myd", &table).attempted());
}
