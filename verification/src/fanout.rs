//! The change broadcaster: one producer publishes unit change signals,
//! any number of subscriptions each see them independently. A slow
//! subscription loses the oldest unread signals and is told it lagged
//! instead of blocking the producer; a lag means the same as a signal,
//! that at least one change occurred.

use vstd::prelude::*;

verus! {

/// How many pending signals a subscription can hold before it lags.
pub const BROADCAST_CAPACITY: u64 = 32;

/// The broadcast channel: how many signals were ever published, and
/// whether the producer is gone.
pub struct Broadcaster {
    pub published: u64,
    pub closed: bool,
}

/// One connection's independent view of the channel: how many signals
/// it has consumed.
pub struct Subscription {
    pub seen: u64,
}

/// What one receive attempt yields.
#[derive(Clone, Copy, Debug, PartialEq, Eq, Structural)]
pub enum RecvOutcome {
    Signal,
    Lagged,
    Pending,
    Closed,
}

/// The outcome a subscription at cursor `seen` receives from a channel
/// with `published` signals: nothing is pending when it is caught up,
/// a lag when it fell more than the capacity behind, else one signal.
pub open spec fn recv_outcome(published: u64, closed: bool, seen: u64) -> RecvOutcome {
    if seen == published {
        if closed {
            RecvOutcome::Closed
        } else {
            RecvOutcome::Pending
        }
    } else if published - seen > BROADCAST_CAPACITY {
        RecvOutcome::Lagged
    } else {
        RecvOutcome::Signal
    }
}

/// The cursor after that receive: a lag jumps to the oldest retained
/// signal, a signal consumes one, and otherwise nothing moves.
pub open spec fn recv_cursor(published: u64, seen: u64) -> u64 {
    if seen == published {
        seen
    } else if published - seen > BROADCAST_CAPACITY {
        (published - BROADCAST_CAPACITY) as u64
    } else {
        (seen + 1) as u64
    }
}

impl Broadcaster {
    /// A fresh channel: nothing published, producer alive.
    pub fn new() -> (b: Broadcaster)
        ensures
            b.published == 0,
            !b.closed,
    {
        Broadcaster { published: 0, closed: false }
    }

    /// Publish one change signal.
    pub fn send(&mut self)
        requires
            old(self).published < u64::MAX,
        ensures
            final(self).published == old(self).published + 1,
            final(self).closed == old(self).closed,
    {
        self.published = self.published + 1;
    }

    /// The producer goes away; subscriptions drain and then see `Closed`.
    pub fn close(&mut self)
        ensures
            final(self).closed,
            final(self).published == old(self).published,
    {
        self.closed = true;
    }

    /// A new subscription sees only signals published from now on.
    pub fn subscribe(&self) -> (s: Subscription)
        ensures
            s.seen == self.published,
            s.wf(self),
    {
        Subscription { seen: self.published }
    }
}

impl Subscription {
    /// A subscription never runs ahead of the channel.
    pub open spec fn wf(&self, b: &Broadcaster) -> bool {
        self.seen <= b.published
    }

    /// One receive attempt against the channel's current state.
    pub fn poll(&mut self, b: &Broadcaster) -> (r: RecvOutcome)
        requires
            old(self).wf(b),
        ensures
            r == recv_outcome(b.published, b.closed, old(self).seen),
            final(self).seen == recv_cursor(b.published, old(self).seen),
            final(self).wf(b),
    {
        if self.seen == b.published {
            if b.closed {
                RecvOutcome::Closed
            } else {
                RecvOutcome::Pending
            }
        } else if b.published - self.seen > BROADCAST_CAPACITY {
            self.seen = b.published - BROADCAST_CAPACITY;
            RecvOutcome::Lagged
        } else {
            self.seen = self.seen + 1;
            RecvOutcome::Signal
        }
    }
}

/// The outcome every subscription in a group would receive, each
/// judged only by its own cursor.
pub open spec fn outcomes(published: u64, closed: bool, cursors: Seq<u64>) -> Seq<RecvOutcome> {
    cursors.map_values(|s: u64| recv_outcome(published, closed, s))
}

/// One published signal is delivered exactly once to a subscription
/// that was caught up: the first receive yields a signal and moves the
/// cursor to the new head, and the next receive finds nothing pending.
pub proof fn lemma_one_send_one_delivery(published0: u64, seen: u64)
    requires
        seen == published0,
        published0 < u64::MAX,
    ensures
        ({
            let p1 = (published0 + 1) as u64;
            &&& recv_outcome(p1, false, seen) is Signal
            &&& recv_cursor(p1, seen) == p1
            &&& recv_outcome(p1, false, recv_cursor(p1, seen)) is Pending
        }),
{
}

/// One published signal reaches every currently-subscribed connection:
/// after one send, each subscription that was caught up receives a
/// signal, whatever the others do.
pub proof fn lemma_one_send_reaches_all(published0: u64, cursors: Seq<u64>)
    requires
        published0 < u64::MAX,
        forall|i: int| 0 <= i < cursors.len() ==> #[trigger] cursors[i] == published0,
    ensures
        forall|i: int|
            0 <= i < cursors.len() ==> #[trigger] outcomes((published0 + 1) as u64, false,
                cursors,
            )[i] is Signal,
{
    let p1 = (published0 + 1) as u64;
    assert forall|i: int| 0 <= i < cursors.len() implies outcomes(p1, false, cursors)[i]
        is Signal by {
        assert(outcomes(p1, false, cursors)[i] == recv_outcome(p1, false, cursors[i]));
    }
}

/// Dropping one subscription leaves every other subscription's receive
/// outcome exactly as it was: delivery is judged per cursor, so one
/// closed or failed connection cannot block the rest.
pub proof fn lemma_disconnect_isolated(published: u64, closed: bool, cursors: Seq<u64>, i: int)
    requires
        0 <= i < cursors.len(),
    ensures
        outcomes(published, closed, cursors.remove(i)) == outcomes(published, closed,
            cursors,
        ).remove(i),
{
    assert(outcomes(published, closed, cursors.remove(i)) =~= outcomes(published, closed,
        cursors,
    ).remove(i));
}

} // verus!
