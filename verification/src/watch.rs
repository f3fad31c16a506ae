//! The watch loop: what to do for each message of the change feed.

use crate::settle::SettleDelay;
use vstd::prelude::*;

verus! {

/// The window over which the feed merges raw changes into one batch, in
/// seconds.
pub const DEBOUNCE_WINDOW_SECS: u64 = 2;

/// One message of the change feed.
#[derive(Clone, Copy, Debug, PartialEq, Eq)]
pub enum WatchEvent {
    /// A batch of raw changes that the feed merged into one, with their number.
    Changed(usize),
    /// The feed lost a notification.
    Failed,
    /// The feed has ended.
    Closed,
}

/// What the program does next.
#[derive(Clone, Copy, Debug, PartialEq, Eq)]
pub enum WatchAction {
    /// Wait for the delay, then make one signal attempt.
    SettleThenSignal(SettleDelay),
    /// Report the lost notification and go on.
    ReportError,
    /// Leave the loop: the feed has ended, which is a failure of the watch.
    Stop,
}

/// Why watching came to an end.
#[derive(Clone, Copy, Debug, PartialEq, Eq, Structural)]
pub enum WatchError {
    /// The change feed was torn down.
    FeedClosed,
}

/// The state of the watch loop.
#[derive(Clone, Copy, Debug, PartialEq, Eq)]
pub struct WatchLoop {
    settle: SettleDelay,
    running: bool,
}

/// The answer to one message: a batch of any size asks for one signal attempt
/// after the settle delay, a lost notification is reported, the end of the
/// feed stops the loop, and a stopped loop stays stopped.
pub open spec fn respond(settle: SettleDelay, running: bool, event: WatchEvent) -> WatchAction {
    if !running {
        WatchAction::Stop
    } else {
        match event {
            WatchEvent::Changed(_) => WatchAction::SettleThenSignal(settle),
            WatchEvent::Failed => WatchAction::ReportError,
            WatchEvent::Closed => WatchAction::Stop,
        }
    }
}

/// Whether the loop still runs after a message.
pub open spec fn runs_after(running: bool, event: WatchEvent) -> bool {
    running && !(event is Closed)
}

/// The answers to a whole feed, in the order of its messages.
pub open spec fn run(settle: SettleDelay, running: bool, events: Seq<WatchEvent>) -> Seq<
    WatchAction,
>
    decreases events.len(),
{
    if events.len() == 0 {
        Seq::empty()
    } else {
        seq![respond(settle, running, events[0])] + run(
            settle,
            runs_after(running, events[0]),
            events.drop_first(),
        )
    }
}

/// The number of batches in a feed.
pub open spec fn batches(events: Seq<WatchEvent>) -> nat
    decreases events.len(),
{
    if events.len() == 0 {
        0
    } else {
        (if events[0] is Changed { 1nat } else { 0nat }) + batches(events.drop_first())
    }
}

/// The number of signal attempts among the answers.
pub open spec fn attempts(actions: Seq<WatchAction>) -> nat
    decreases actions.len(),
{
    if actions.len() == 0 {
        0
    } else {
        (if actions[0] is SettleThenSignal { 1nat } else { 0nat }) + attempts(
            actions.drop_first(),
        )
    }
}

/// Whether the loop still runs after a whole feed.
pub open spec fn runs_after_all(running: bool, events: Seq<WatchEvent>) -> bool
    decreases events.len(),
{
    if events.len() == 0 {
        running
    } else {
        runs_after_all(runs_after(running, events[0]), events.drop_first())
    }
}

/// No message of the feed says that it has ended.
pub open spec fn never_closed(events: Seq<WatchEvent>) -> bool {
    forall|i: int| 0 <= i < events.len() ==> !(#[trigger] events[i] is Closed)
}

impl WatchLoop {
    /// The settle delay that the loop was made with.
    pub closed spec fn settle(&self) -> SettleDelay {
        self.settle
    }

    /// Whether the loop still runs.
    pub closed spec fn running(&self) -> bool {
        self.running
    }

    /// A running loop with the given settle delay.
    pub fn new(settle: SettleDelay) -> (r: WatchLoop)
        ensures
            r.settle() == settle,
            r.running(),
    {
        WatchLoop { settle, running: true }
    }

    /// The settle delay that the loop was made with.
    pub fn settle_delay(&self) -> (r: SettleDelay)
        ensures
            r == self.settle(),
    {
        self.settle
    }

    /// Whether the loop still runs.
    pub fn is_running(&self) -> (r: bool)
        ensures
            r == self.running(),
    {
        self.running
    }

    /// How watching stands: an error once the feed has ended, and only then.
    /// A loop never ends in success.
    pub fn status(&self) -> (r: Result<(), WatchError>)
        ensures
            r is Err <==> !self.running(),
            r is Err ==> r == Err::<(), WatchError>(WatchError::FeedClosed),
    {
        if self.running {
            Ok(())
        } else {
            Err(WatchError::FeedClosed)
        }
    }

    /// Takes one message of the feed and says what to do for it.
    pub fn step(&mut self, event: WatchEvent) -> (action: WatchAction)
        ensures
            action == respond(old(self).settle(), old(self).running(), event),
            final(self).settle() == old(self).settle(),
            final(self).running() == runs_after(old(self).running(), event),
    {
        if !self.running {
            return WatchAction::Stop;
        }
        match event {
            WatchEvent::Changed(_) => WatchAction::SettleThenSignal(self.settle),
            WatchEvent::Failed => WatchAction::ReportError,
            WatchEvent::Closed => {
                self.running = false;
                WatchAction::Stop
            },
        }
    }
}

/// A running loop stops exactly when the feed says that it has ended: after
/// any feed without such a message it still runs, and after any other it has
/// stopped, which is an error.
pub proof fn lemma_stops_only_when_closed(events: Seq<WatchEvent>)
    ensures
        runs_after_all(true, events) <==> never_closed(events),
    decreases events.len(),
{
    if events.len() > 0 {
        let rest = events.drop_first();
        if events[0] is Closed {
            lemma_stopped_never_runs(rest);
        } else {
            lemma_stops_only_when_closed(rest);
            if never_closed(rest) {
                assert forall|i: int| 0 <= i < events.len() implies !(#[trigger] events[i]
                    is Closed) by {
                    if i > 0 {
                        assert(rest[i - 1] == events[i]);
                    }
                }
            } else {
                let j = choose|j: int| 0 <= j < rest.len() && (#[trigger] rest[j] is Closed);
                assert(events[j + 1] == rest[j]);
            }
        }
    }
}

/// A stopped loop does not run again, whatever the feed holds.
pub proof fn lemma_stopped_never_runs(events: Seq<WatchEvent>)
    ensures
        !runs_after_all(false, events),
    decreases events.len(),
{
    if events.len() > 0 {
        lemma_stopped_never_runs(events.drop_first());
    }
}

/// Every message gets one answer.
pub proof fn lemma_run_len(settle: SettleDelay, running: bool, events: Seq<WatchEvent>)
    ensures
        run(settle, running, events).len() == events.len(),
    decreases events.len(),
{
    if events.len() > 0 {
        lemma_run_len(settle, runs_after(running, events[0]), events.drop_first());
    }
}

/// While the feed goes on, the answers come in the order of the messages, each
/// the answer of a running loop to its message.
pub proof fn lemma_run_in_order(settle: SettleDelay, events: Seq<WatchEvent>, i: int)
    requires
        never_closed(events),
        0 <= i < events.len(),
    ensures
        run(settle, true, events).len() == events.len(),
        run(settle, true, events)[i] == respond(settle, true, events[i]),
    decreases events.len(),
{
    lemma_run_len(settle, true, events);
    let rest = events.drop_first();
    assert(!(events[0] is Closed));
    if i > 0 {
        assert forall|j: int| 0 <= j < rest.len() implies !(#[trigger] rest[j] is Closed) by {
            assert(rest[j] == events[j + 1]);
        }
        lemma_run_in_order(settle, rest, i - 1);
        assert(rest[i - 1] == events[i]);
    }
}

/// While the feed goes on, each batch leads to exactly one signal attempt,
/// however many raw changes it holds, and nothing else leads to one.
pub proof fn lemma_one_attempt_per_batch(settle: SettleDelay, events: Seq<WatchEvent>)
    requires
        never_closed(events),
    ensures
        attempts(run(settle, true, events)) == batches(events),
    decreases events.len(),
{
    if events.len() > 0 {
        let rest = events.drop_first();
        assert(!(events[0] is Closed));
        assert forall|j: int| 0 <= j < rest.len() implies !(#[trigger] rest[j] is Closed) by {
            assert(rest[j] == events[j + 1]);
        }
        lemma_one_attempt_per_batch(settle, rest);
        let actions = run(settle, true, events);
        assert(actions.drop_first() =~= run(settle, true, rest));
        assert(actions[0] == respond(settle, true, events[0]));
    }
}

/// Every signal attempt waits for the delay that the loop was made with.
pub proof fn lemma_attempts_wait_for_settle(
    settle: SettleDelay,
    running: bool,
    events: Seq<WatchEvent>,
    i: int,
)
    requires
        0 <= i < events.len(),
    ensures
        run(settle, running, events).len() == events.len(),
        run(settle, running, events)[i] matches WatchAction::SettleThenSignal(delay) ==> delay
            == settle,
    decreases events.len(),
{
    lemma_run_len(settle, running, events);
    if i > 0 {
        lemma_attempts_wait_for_settle(
            settle,
            runs_after(running, events[0]),
            events.drop_first(),
            i - 1,
        );
    }
}

/// Once the feed has ended, no message leads to a signal attempt.
pub proof fn lemma_stopped_stays_stopped(settle: SettleDelay, events: Seq<WatchEvent>)
    ensures
        attempts(run(settle, false, events)) == 0,
    decreases events.len(),
{
    if events.len() > 0 {
        let rest = events.drop_first();
        lemma_stopped_stays_stopped(settle, rest);
        assert(run(settle, false, events).drop_first() =~= run(settle, false, rest));
    }
}

} // verus!
