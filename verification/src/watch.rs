//! Filesystem-watch decisions: which observed events produce a change
//! signal, how a receive error is survived, and the debounce window
//! that collapses a burst of writes into one signal.

use vstd::prelude::*;

verus! {

/// The debounce window, in milliseconds.
pub const DEBOUNCE_WINDOW_MS: u64 = 200;

/// A filesystem event, as the watch loop reads it: only the kind
/// matters, never which file was touched.
#[derive(Clone, Copy, Debug, PartialEq, Eq, Structural)]
pub enum WatchEvent {
    Write,
    Create,
    Remove,
    Rename,
    Other,
}

/// What the watch loop received: an event, or a channel error.
#[derive(Clone, Copy, Debug, PartialEq, Eq, Structural)]
pub enum WatchOutcome {
    Event(WatchEvent),
    ChannelError,
}

/// What the watch loop does next: publish a change signal, ignore the
/// event, or log the error and keep watching.
#[derive(Clone, Copy, Debug, PartialEq, Eq, Structural)]
pub enum WatchAction {
    Broadcast,
    Ignore,
    LogAndContinue,
}

/// Only a write produces a signal; creation, deletion and renames are
/// ignored, and a receive error never ends the watch loop.
pub fn watch_step(o: &WatchOutcome) -> (a: WatchAction)
    ensures
        a is Broadcast <==> o == WatchOutcome::Event(WatchEvent::Write),
        a is LogAndContinue <==> o is ChannelError,
        a is Ignore <==> (o is Event && !(o == WatchOutcome::Event(WatchEvent::Write))),
{
    match o {
        WatchOutcome::Event(WatchEvent::Write) => WatchAction::Broadcast,
        WatchOutcome::Event(_) => WatchAction::Ignore,
        WatchOutcome::ChannelError => WatchAction::LogAndContinue,
    }
}

/// The debounce state: the start of the burst being coalesced, if one
/// is open.
pub struct Debouncer {
    pub window_ms: u64,
    pub burst_start: Option<u64>,
}

/// One write at time `t`: it is merged into an open burst that started
/// less than a window ago, and otherwise opens a new burst and emits a
/// signal.
pub open spec fn debounce_step(window_ms: u64, burst_start: Option<u64>, t: u64) -> (Option<
    u64,
>, bool) {
    match burst_start {
        Some(s) => if s <= t && t < s + window_ms {
            (Some(s), false)
        } else {
            (Some(t), true)
        },
        None => (Some(t), true),
    }
}

/// The number of signals that a sequence of writes produces, processed
/// in order from the given state.
pub open spec fn debounce_signals(window_ms: u64, burst_start: Option<u64>, times: Seq<u64>) -> nat
    decreases times.len(),
{
    if times.len() == 0 {
        0
    } else {
        let (next, emit) = debounce_step(window_ms, burst_start, times[0]);
        (if emit {
            1nat
        } else {
            0nat
        }) + debounce_signals(window_ms, next, times.drop_first())
    }
}

impl Debouncer {
    /// A fresh debouncer with the given window and no open burst.
    pub fn new(window_ms: u64) -> (d: Debouncer)
        ensures
            d.window_ms == window_ms,
            d.burst_start is None,
    {
        Debouncer { window_ms, burst_start: None }
    }

    /// Record one write; the result says whether to emit a signal.
    pub fn note_write(&mut self, t: u64) -> (emit: bool)
        ensures
            (final(self).burst_start, emit) == debounce_step(
                old(self).window_ms,
                old(self).burst_start,
                t,
            ),
            final(self).window_ms == old(self).window_ms,
    {
        match self.burst_start {
            Some(s) => {
                if t >= s && t - s < self.window_ms {
                    false
                } else {
                    self.burst_start = Some(t);
                    true
                }
            },
            None => {
                self.burst_start = Some(t);
                true
            },
        }
    }
}

proof fn lemma_burst_absorbed(window_ms: u64, start: u64, times: Seq<u64>)
    requires
        forall|i: int| 0 <= i < times.len() ==> start <= #[trigger] times[i] < start + window_ms,
    ensures
        debounce_signals(window_ms, Some(start), times) == 0,
    decreases times.len(),
{
    if times.len() > 0 {
        assert(start <= times[0] < start + window_ms);
        assert(forall|i: int|
            0 <= i < times.drop_first().len() ==> #[trigger] times.drop_first()[i] == times[i + 1]);
        lemma_burst_absorbed(window_ms, start, times.drop_first());
    }
}

/// A single burst: any number of writes that all fall within one
/// debounce window of the first produces exactly one signal, however
/// many writes there were.
pub proof fn lemma_single_burst_single_signal(window_ms: u64, times: Seq<u64>)
    requires
        times.len() > 0,
        forall|i: int| 0 <= i < times.len() ==> times[0] <= #[trigger] times[i] < times[0] + window_ms,
    ensures
        debounce_signals(window_ms, None, times) == 1,
{
    let start = times[0];
    assert(debounce_step(window_ms, None, start) == (Some(start), true));
    assert(forall|i: int|
        0 <= i < times.drop_first().len() ==> #[trigger] times.drop_first()[i] == times[i + 1]);
    lemma_burst_absorbed(window_ms, start, times.drop_first());
}

} // verus!
