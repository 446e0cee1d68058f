//! The broadcast distributor: a bounded-backlog, single-publisher,
//! multi-consumer fan-out of snapshots.
//!
//! [`SystemMonitor`] is the distributor's state: the full publish history
//! (as ghost content), the bounded backlog of retained snapshots, the count
//! of active subscriptions and the publisher-side shutdown flag. Each
//! subscriber holds an independent [`Cursor`] into the history; reads never
//! disturb other subscribers. A subscriber that falls more than the
//! capacity behind loses its oldest unread snapshots and is handed an
//! explicit lag signal on its next read, never a stale value. The
//! background task that drives the ticks and the host's await points live
//! outside the library: a read that would suspend reports
//! [`RecvOutcome::Pending`] here.

use vstd::prelude::*;
use vstd::string::StringExecFns;

use crate::types::{CPUUsageData, MemoryUsageData, StatsView, SystemStats};

verus! {

/// A subscriber's independent read position into the distributor's history.
///
/// A cursor is obtained from [`SystemMonitor::subscribe`] and starts at the
/// next snapshot to be published after that call; it never observes
/// anything published earlier.
#[derive(Clone, Copy, PartialEq, Eq, Structural, Debug)]
pub struct Cursor {
    /// Index into the publish history of the next snapshot to read.
    pub pos: u64,
}

/// What one read at a cursor yields.
#[derive(Debug)]
pub enum RecvOutcome {
    /// The snapshot published at the cursor's position, by content.
    Received(SystemStats),
    /// The cursor fell more than the capacity behind: this many snapshots
    /// were dropped unread, and the cursor now stands at the oldest
    /// retained one.
    Lagged(u64),
    /// Nothing is pending and the publisher is alive: the caller's host
    /// would suspend here and read again after the next publish.
    Pending,
    /// Nothing is pending and the publisher has shut down.
    Closed,
}

/// The mathematical content of a [`RecvOutcome`].
pub enum RecvView {
    Received(StatsView),
    Lagged(int),
    Pending,
    Closed,
}

impl View for RecvOutcome {
    type V = RecvView;

    open spec fn view(&self) -> RecvView {
        match self {
            RecvOutcome::Received(s) => RecvView::Received(s@),
            RecvOutcome::Lagged(n) => RecvView::Lagged(*n as int),
            RecvOutcome::Pending => RecvView::Pending,
            RecvOutcome::Closed => RecvView::Closed,
        }
    }
}

/// What one publish reports. Neither variant is an error: a publish with no
/// one listening is a no-op for delivery and must not disturb the sampler.
#[derive(Clone, Copy, PartialEq, Eq, Structural, Debug)]
pub enum PublishOutcome {
    /// Delivered to this many active subscriptions.
    Delivered(u64),
    /// No subscription was active; the snapshot still enters the backlog
    /// for subscribers that are yet to catch up, and later publishes are
    /// unaffected.
    NoReceivers,
}

/// The sampling-and-fan-out engine's shared state: one publisher (the
/// sampler's tick loop), any number of independent subscribers.
pub struct SystemMonitor {
    /// Retained tail of the history, oldest first; never longer than `cap`.
    buffer: Vec<SystemStats>,
    /// Backlog bound: how far a subscriber may fall behind before it lags.
    cap: usize,
    /// Number of snapshots ever published.
    published: u64,
    /// Number of active subscriptions.
    receivers: u64,
    /// Whether the publisher side has shut down.
    closed: bool,
    /// The full publish history, by content.
    hist: Ghost<Seq<StatsView>>,
}

impl SystemMonitor {
    /// Every snapshot ever published, in publish order, by content.
    pub closed spec fn history(self) -> Seq<StatsView> {
        self.hist@
    }

    /// The backlog bound the distributor was created with.
    pub closed spec fn capacity(self) -> int {
        self.cap as int
    }

    /// How many subscriptions are active.
    pub closed spec fn receiver_count(self) -> int {
        self.receivers as int
    }

    /// Whether the publisher side has shut down.
    pub closed spec fn is_closed(self) -> bool {
        self.closed
    }

    /// Index of the oldest snapshot still retained: everything published
    /// earlier has been dropped from the backlog.
    pub open spec fn start(self) -> int {
        if self.history().len() > self.capacity() {
            self.history().len() - self.capacity()
        } else {
            0
        }
    }

    /// Well-formedness: the history fits in a `u64` count, the capacity is
    /// at least one, and the backlog holds exactly the retained tail of the
    /// history.
    pub closed spec fn wf(self) -> bool {
        &&& 1 <= self.cap
        &&& self.published == self.hist@.len()
        &&& self.buffer@.len() == self.hist@.len() - self.start()
        &&& forall|i: int|
            0 <= i < self.buffer@.len() ==> self.buffer@[i]@ == self.hist@[self.start() + i]
    }

    /// The outcome of one read at history position `p`: a lag signal if the
    /// position fell behind the retained tail, otherwise the snapshot at
    /// the position, otherwise — nothing pending — the closed signal or a
    /// wait.
    pub open spec fn spec_next(self, p: int) -> RecvView {
        if p < self.start() {
            RecvView::Lagged(self.start() - p)
        } else if p < self.history().len() {
            RecvView::Received(self.history()[p])
        } else if self.is_closed() {
            RecvView::Closed
        } else {
            RecvView::Pending
        }
    }

    /// The cursor position after one read at history position `p`: a
    /// lagged cursor skips ahead to the oldest retained snapshot, a
    /// successful read advances by one, a wait stands still.
    pub open spec fn spec_next_pos(self, p: int) -> int {
        if p < self.start() {
            self.start()
        } else if p < self.history().len() {
            p + 1
        } else {
            p
        }
    }

    /// A fresh distributor with the given backlog capacity: nothing
    /// published, no subscribers, publisher alive.
    pub fn with_capacity(capacity: usize) -> (m: SystemMonitor)
        requires
            1 <= capacity,
        ensures
            m.wf(),
            m.history() == Seq::<StatsView>::empty(),
            m.capacity() == capacity,
            m.receiver_count() == 0,
            !m.is_closed(),
    {
        SystemMonitor {
            buffer: Vec::new(),
            cap: capacity,
            published: 0,
            receivers: 0,
            closed: false,
            hist: Ghost(Seq::empty()),
        }
    }

    /// A fresh distributor with the default backlog capacity of 100
    /// pending snapshots.
    pub fn new() -> (m: SystemMonitor)
        ensures
            m.wf(),
            m.history() == Seq::<StatsView>::empty(),
            m.capacity() == 100,
            m.receiver_count() == 0,
            !m.is_closed(),
    {
        SystemMonitor::with_capacity(100)
    }

    /// A fresh, independent read cursor, positioned at the next snapshot to
    /// be published after this call: it never observes anything published
    /// before the subscription.
    pub fn subscribe(&mut self) -> (c: Cursor)
        requires
            old(self).wf(),
            old(self).receiver_count() < u64::MAX,
        ensures
            final(self).wf(),
            c.pos == old(self).history().len(),
            final(self).history() == old(self).history(),
            final(self).capacity() == old(self).capacity(),
            final(self).is_closed() == old(self).is_closed(),
            final(self).receiver_count() == old(self).receiver_count() + 1,
    {
        self.receivers = self.receivers + 1;
        Cursor { pos: self.published }
    }

    /// Drop a subscription: the cursor is discarded and only the count of
    /// active subscriptions changes. An abandoned reader owes the
    /// publisher nothing more.
    pub fn unsubscribe(&mut self, cursor: Cursor)
        requires
            old(self).wf(),
            1 <= old(self).receiver_count(),
        ensures
            final(self).wf(),
            final(self).history() == old(self).history(),
            final(self).capacity() == old(self).capacity(),
            final(self).is_closed() == old(self).is_closed(),
            final(self).receiver_count() == old(self).receiver_count() - 1,
    {
        let _ = cursor;
        self.receivers = self.receivers - 1;
    }

    /// Shut the publisher side down: nothing further will be published, and
    /// a subscriber that has read everything observes the closed signal
    /// instead of waiting.
    pub fn close(&mut self)
        requires
            old(self).wf(),
        ensures
            final(self).wf(),
            final(self).is_closed(),
            final(self).history() == old(self).history(),
            final(self).capacity() == old(self).capacity(),
            final(self).receiver_count() == old(self).receiver_count(),
    {
        self.closed = true;
    }

    /// Publish one snapshot: it is appended to the history and becomes
    /// visible, by content, to every active cursor; if the backlog was
    /// full, the oldest retained snapshot is dropped for late readers.
    ///
    /// Fire-and-forget: the effect on the history is the same whether zero
    /// or many subscribers are active — with none, the outcome merely says
    /// [`PublishOutcome::NoReceivers`], which is not an error and leaves
    /// subsequent publishes unaffected.
    pub fn publish(&mut self, snapshot: SystemStats) -> (r: PublishOutcome)
        requires
            old(self).wf(),
            !old(self).is_closed(),
            old(self).history().len() < u64::MAX,
        ensures
            final(self).wf(),
            final(self).history() == old(self).history().push(snapshot@),
            final(self).capacity() == old(self).capacity(),
            final(self).is_closed() == old(self).is_closed(),
            final(self).receiver_count() == old(self).receiver_count(),
            old(self).receiver_count() == 0 <==> r == PublishOutcome::NoReceivers,
            old(self).receiver_count() > 0 ==> (r matches PublishOutcome::Delivered(n)
                && n == old(self).receiver_count()),
    {
        if self.buffer.len() == self.cap {
            self.buffer.remove(0);
        }
        self.buffer.push(snapshot);
        self.published = self.published + 1;
        proof {
            self.hist@ = self.hist@.push(snapshot@);
        }
        if self.receivers == 0 {
            PublishOutcome::NoReceivers
        } else {
            PublishOutcome::Delivered(self.receivers)
        }
    }

    /// One read at the given cursor. The snapshot published at the cursor's
    /// position is returned by content and the cursor advances past it;
    /// positions the backlog dropped yield one lag signal and skip the
    /// cursor ahead to the oldest retained snapshot; a caught-up cursor
    /// yields the closed signal or, with the publisher alive, a wait. Reads
    /// are independent: the distributor itself is untouched, in particular
    /// no other subscriber's pace matters.
    pub fn next(&self, c: &mut Cursor) -> (r: RecvOutcome)
        requires
            self.wf(),
            old(c).pos <= self.history().len(),
        ensures
            r@ == self.spec_next(old(c).pos as int),
            final(c).pos == self.spec_next_pos(old(c).pos as int),
            old(c).pos <= final(c).pos <= self.history().len(),
    {
        let start = self.published - self.buffer.len() as u64;
        if c.pos < start {
            let missed = start - c.pos;
            c.pos = start;
            RecvOutcome::Lagged(missed)
        } else if c.pos < self.published {
            let idx = (c.pos - start) as usize;
            let snapshot = self.buffer[idx].clone();
            c.pos = c.pos + 1;
            RecvOutcome::Received(snapshot)
        } else if self.closed {
            RecvOutcome::Closed
        } else {
            RecvOutcome::Pending
        }
    }

    /// Whether a read at position `p` has something to report: a snapshot,
    /// a lag signal, or the closed signal. While this is false the host's
    /// await suspends and reads again after the next publish; the
    /// subscriber-facing accessors below are entered once it holds.
    pub open spec fn resolved(self, p: int) -> bool {
        self.is_closed() || p < self.history().len()
    }

    /// One request for the CPU view: read one snapshot at the cursor and
    /// project its CPU usage; a lag or closed signal becomes the fixed
    /// failure string. The subscription is the caller's to drop afterwards.
    pub fn get_cpu_stats(&self, c: &mut Cursor) -> (r: Result<CPUUsageData, String>)
        requires
            self.wf(),
            old(c).pos <= self.history().len(),
            self.resolved(old(c).pos as int),
        ensures
            final(c).pos == self.spec_next_pos(old(c).pos as int),
            r is Ok <==> self.start() <= old(c).pos < self.history().len(),
            self.start() <= old(c).pos < self.history().len() ==> (r matches Ok(v) && v
                == self.history()[old(c).pos as int].cpu),
            r matches Err(m) ==> m@ == "Failed to get CPU stats"@,
    {
        match self.next(c) {
            RecvOutcome::Received(s) => Ok(s.cpu),
            _ => Err(String::from_str("Failed to get CPU stats")),
        }
    }

    /// One request for the memory view: read one snapshot at the cursor
    /// and project its memory usage; a lag or closed signal becomes the
    /// fixed failure string.
    pub fn get_memory_stats(&self, c: &mut Cursor) -> (r: Result<MemoryUsageData, String>)
        requires
            self.wf(),
            old(c).pos <= self.history().len(),
            self.resolved(old(c).pos as int),
        ensures
            final(c).pos == self.spec_next_pos(old(c).pos as int),
            r is Ok <==> self.start() <= old(c).pos < self.history().len(),
            self.start() <= old(c).pos < self.history().len() ==> (r matches Ok(v) && v
                == self.history()[old(c).pos as int].memory),
            r matches Err(m) ==> m@ == "Failed to get memory stats"@,
    {
        match self.next(c) {
            RecvOutcome::Received(s) => Ok(s.memory),
            _ => Err(String::from_str("Failed to get memory stats")),
        }
    }

    /// One request for the full snapshot: read one snapshot at the cursor
    /// and return it whole, by content; a lag or closed signal becomes the
    /// fixed failure string.
    pub fn get_system_stats(&self, c: &mut Cursor) -> (r: Result<SystemStats, String>)
        requires
            self.wf(),
            old(c).pos <= self.history().len(),
            self.resolved(old(c).pos as int),
        ensures
            final(c).pos == self.spec_next_pos(old(c).pos as int),
            r is Ok <==> self.start() <= old(c).pos < self.history().len(),
            self.start() <= old(c).pos < self.history().len() ==> (r matches Ok(v) && v@
                == self.history()[old(c).pos as int]),
            r matches Err(m) ==> m@ == "Failed to get system stats"@,
    {
        match self.next(c) {
            RecvOutcome::Received(s) => Ok(s),
            _ => Err(String::from_str("Failed to get system stats")),
        }
    }
}

/// Fan-out law: however many subscribers are active when a snapshot is
/// published, every cursor that had caught up with the history observes
/// exactly that snapshot on its next read, and its position advances past
/// it — so each subscriber receives the published snapshots in publish
/// order, never a later one first.
pub proof fn lemma_publish_fanout(m0: SystemMonitor, m1: SystemMonitor, s: StatsView, p: int)
    requires
        1 <= m0.capacity(),
        m1.capacity() == m0.capacity(),
        m1.history() == m0.history().push(s),
        p == m0.history().len(),
    ensures
        m1.spec_next(p) == RecvView::Received(s),
        m1.spec_next_pos(p) == p + 1,
{
}

/// In-order delivery law: a read at any retained position yields precisely
/// the snapshot published at that position and moves the cursor to the
/// following one, independently of every other subscriber's pace.
pub proof fn lemma_in_order(m: SystemMonitor, p: int)
    requires
        m.start() <= p < m.history().len(),
    ensures
        m.spec_next(p) == RecvView::Received(m.history()[p]),
        m.spec_next_pos(p) == p + 1,
{
}

/// Freshness law: a subscriber created after some prefix of the history
/// was already published never observes a snapshot from that prefix. Its
/// cursor starts at the prefix's end, a read never moves a cursor
/// backwards, and whatever a read returns is the snapshot at the cursor's
/// own position — at or beyond the subscription point.
pub proof fn lemma_fresh_cursor_sees_only_later(
    m0: SystemMonitor,
    m1: SystemMonitor,
    c: int,
    p: int,
)
    requires
        m0.history().is_prefix_of(m1.history()),
        c == m0.history().len(),
        c <= p,
    ensures
        m1.spec_next(p) matches RecvView::Received(s) ==> s == m1.history()[p] && c <= p,
        p <= m1.spec_next_pos(p),
{
}

/// Early-subscriber law: a cursor that subscribed before anything was
/// published only waits while the publisher is alive — no lag, no failure
/// — and the first publish is then delivered to it exactly.
pub proof fn lemma_early_subscriber_waits(
    m0: SystemMonitor,
    m1: SystemMonitor,
    s: StatsView,
    p: int,
)
    requires
        1 <= m0.capacity(),
        !m0.is_closed(),
        p == m0.history().len(),
        m1.capacity() == m0.capacity(),
        m1.history() == m0.history().push(s),
    ensures
        m0.spec_next(p) == RecvView::Pending,
        m1.spec_next(p) == RecvView::Received(s),
{
}

/// Backlog-saturation law: once more snapshots than the capacity have been
/// published past a stalled cursor, its next read is the lag signal naming
/// how many snapshots it lost — never the oldest dropped snapshot.
pub proof fn lemma_backlog_overflow(m: SystemMonitor, p: int)
    requires
        0 <= p,
        p + m.capacity() < m.history().len(),
    ensures
        m.spec_next(p) == RecvView::Lagged(m.history().len() - m.capacity() - p),
        m.spec_next_pos(p) == m.start(),
{
}

} // verus!
