use vstd::prelude::*;

use std::collections::VecDeque;

use crate::config::ConfigError;
use crate::engine::{ConnectionAttempt, Verdict};
use crate::ip::IpAddress;

verus! {

/// The capacity of a buffer made with default options.
pub const DEFAULT_BUFFER_CAPACITY: usize = 10000;

/// The record of one evaluated connection attempt.
#[derive(Clone, Debug, PartialEq, Eq)]
pub struct LogEvent {
    pub timestamp: u64,
    pub app_name: String,
    pub domain: String,
    pub ip: IpAddress,
    pub protocol: String,
    pub verdict: Verdict,
}

impl LogEvent {
    /// The event that `attempt`, decided at `timestamp` with `verdict`,
    /// leaves behind.
    pub fn new(timestamp: u64, attempt: ConnectionAttempt, verdict: Verdict) -> (r: LogEvent)
        ensures
            r.timestamp == timestamp,
            r.app_name == attempt.app_name,
            r.domain == attempt.domain,
            r.ip == attempt.ip,
            r.protocol == attempt.protocol,
            r.verdict == verdict,
    {
        LogEvent {
            timestamp,
            app_name: attempt.app_name,
            domain: attempt.domain,
            ip: attempt.ip,
            protocol: attempt.protocol,
            verdict,
        }
    }
}

/// The content of a buffer: the events waiting, oldest first, the most it
/// may hold, and how many events it has had to drop.
pub struct BufferState {
    pub events: Seq<LogEvent>,
    pub capacity: nat,
    pub overflow: nat,
}

/// A counter raised by `k`, held at the largest `u64`.
pub open spec fn bump(c: nat, k: nat) -> nat {
    if c + k > u64::MAX {
        u64::MAX as nat
    } else {
        c + k
    }
}

/// What every buffer satisfies.
pub open spec fn buffer_wf(b: BufferState) -> bool {
    &&& b.capacity > 0
    &&& b.events.len() <= b.capacity
    &&& b.overflow <= u64::MAX
}

/// The buffer after one event is recorded: appended, and when the buffer
/// is full the oldest event is evicted and counted.
pub open spec fn record_spec(b: BufferState, e: LogEvent) -> BufferState {
    if b.events.len() < b.capacity {
        BufferState { events: b.events.push(e), ..b }
    } else {
        BufferState { events: b.events.drop_first().push(e), overflow: bump(b.overflow, 1), ..b }
    }
}

/// The buffer after the events of `es` are recorded in order.
pub open spec fn record_all(b: BufferState, es: Seq<LogEvent>) -> BufferState
    decreases es.len(),
{
    if es.len() == 0 {
        b
    } else {
        record_spec(record_all(b, es.drop_last()), es.last())
    }
}

/// The buffer after a drain: empty, with its capacity and counter.
pub open spec fn drain_spec(b: BufferState) -> BufferState {
    BufferState { events: Seq::empty(), ..b }
}

/// How many events of a returned batch of `n` fit back before the events
/// already waiting.
pub open spec fn requeue_kept(b: BufferState, n: nat) -> nat {
    let room = b.capacity - b.events.len();
    if n <= room {
        n
    } else {
        room as nat
    }
}

/// The buffer after a batch that could not be delivered is put back in
/// front of the events recorded since; what does not fit is dropped from
/// the oldest end of the batch and counted.
pub open spec fn requeue_spec(b: BufferState, batch: Seq<LogEvent>) -> BufferState {
    let kept = requeue_kept(b, batch.len());
    BufferState {
        events: batch.subrange(batch.len() - kept, batch.len() as int) + b.events,
        overflow: bump(b.overflow, (batch.len() - kept) as nat),
        ..b
    }
}

/// The events of connection attempts, waiting to be shipped.
pub struct LogBuffer {
    events: VecDeque<LogEvent>,
    capacity: usize,
    overflow: u64,
}

impl View for LogBuffer {
    type V = BufferState;

    closed spec fn view(&self) -> BufferState {
        BufferState { events: self.events@, capacity: self.capacity as nat, overflow: self.overflow as nat }
    }
}

impl LogBuffer {
    /// The buffer's invariant.
    pub open spec fn wf(&self) -> bool {
        buffer_wf(self@)
    }

    /// An empty buffer that holds at most `capacity` events; a capacity of
    /// zero is refused.
    pub fn new(capacity: usize) -> (r: Result<LogBuffer, ConfigError>)
        ensures
            capacity == 0 ==> r == Err::<LogBuffer, ConfigError>(ConfigError::ZeroCapacity),
            capacity > 0 ==> (r matches Ok(b) && b.wf() && b@.events == Seq::<LogEvent>::empty()
                && b@.capacity == capacity && b@.overflow == 0),
    {
        if capacity == 0 {
            return Err(ConfigError::ZeroCapacity);
        }
        Ok(LogBuffer { events: VecDeque::new(), capacity, overflow: 0 })
    }

    /// An empty buffer of the default capacity.
    pub fn with_default_capacity() -> (r: LogBuffer)
        ensures
            r.wf(),
            r@.events == Seq::<LogEvent>::empty(),
            r@.capacity == DEFAULT_BUFFER_CAPACITY,
            r@.overflow == 0,
    {
        LogBuffer { events: VecDeque::new(), capacity: DEFAULT_BUFFER_CAPACITY, overflow: 0 }
    }

    /// The number of events waiting.
    pub fn len(&self) -> (r: usize)
        ensures
            r == self@.events.len(),
    {
        self.events.len()
    }

    /// The most events the buffer holds.
    pub fn capacity(&self) -> (r: usize)
        ensures
            r == self@.capacity,
    {
        self.capacity
    }

    /// How many events have been dropped for want of room.
    pub fn overflow_count(&self) -> (r: u64)
        ensures
            r == self@.overflow,
    {
        self.overflow
    }

    /// Appends `e`; a full buffer evicts its oldest event first and counts
    /// it. Never fails.
    pub fn record(&mut self, e: LogEvent)
        requires
            old(self).wf(),
        ensures
            final(self).wf(),
            final(self)@ == record_spec(old(self)@, e),
    {
        if self.events.len() < self.capacity {
            self.events.push_back(e);
        } else {
            let _ = self.events.pop_front();
            self.events.push_back(e);
            self.overflow = self.overflow.saturating_add(1);
        }
    }

    /// Removes and returns every waiting event, oldest first, leaving the
    /// buffer empty.
    pub fn drain(&mut self) -> (r: Vec<LogEvent>)
        requires
            old(self).wf(),
        ensures
            final(self).wf(),
            r@ == old(self)@.events,
            final(self)@ == drain_spec(old(self)@),
    {
        let mut taken: VecDeque<LogEvent> = VecDeque::new();
        std::mem::swap(&mut taken, &mut self.events);
        let ghost all = taken@;
        let mut out: Vec<LogEvent> = Vec::new();
        while taken.len() > 0
            invariant
                out@ + taken@ == all,
            decreases taken@.len(),
        {
            let ghost before = taken@;
            match taken.pop_front() {
                Some(e) => {
                    out.push(e);
                    assert(out@ + taken@ =~= all) by {
                        assert(before =~= seq![before[0]] + taken@);
                    }
                },
                None => {},
            }
        }
        assert(out@ =~= all);
        assert(self.events@ =~= Seq::<LogEvent>::empty());
        out
    }

    /// Puts back a batch that could not be delivered, in front of the events
    /// recorded since; the oldest events of the batch that do not fit are
    /// dropped and counted.
    pub fn requeue(&mut self, batch: Vec<LogEvent>)
        requires
            old(self).wf(),
        ensures
            final(self).wf(),
            final(self)@ == requeue_spec(old(self)@, batch@),
    {
        let ghost orig = batch@;
        let ghost start = self.events@;
        let mut batch = batch;
        let n: usize = batch.len();
        let room: usize = self.capacity - self.events.len();
        let kept: usize = if n <= room {
            n
        } else {
            room
        };
        let mut j: usize = 0;
        while j < kept
            invariant
                j <= kept <= n,
                n == orig.len(),
                kept == requeue_kept(old(self)@, n as nat),
                batch@ == orig.subrange(0, n - j),
                self.events@ == orig.subrange(n - j, n as int) + start,
                self.capacity == old(self)@.capacity,
                self.overflow == old(self)@.overflow,
            decreases kept - j,
        {
            let ghost ev = self.events@;
            match batch.pop() {
                Some(e) => {
                    self.events.push_front(e);
                    assert(self.events@ =~= orig.subrange(n - j - 1, n as int) + start) by {
                        assert(orig.subrange(n - j - 1, n as int) =~= seq![e] + orig.subrange(n - j, n as int));
                    }
                },
                None => {},
            }
            j = j + 1;
        }
        let dropped: usize = n - kept;
        self.overflow = self.overflow.saturating_add(dropped as u64);
    }
}

/// Once drained, a buffer stays empty: a second drain with no record
/// between them returns nothing.
pub proof fn lemma_drain_twice_empty(b: BufferState)
    ensures
        drain_spec(b).events.len() == 0,
        drain_spec(drain_spec(b)) == drain_spec(b),
{
}

/// Below its capacity a buffer loses nothing: recording `es` appends them
/// all, in order, and the drop counter does not move.
pub proof fn lemma_record_all_keeps_every_event(b: BufferState, es: Seq<LogEvent>)
    requires
        buffer_wf(b),
        b.events.len() + es.len() <= b.capacity,
    ensures
        record_all(b, es).events == b.events + es,
        record_all(b, es).overflow == b.overflow,
        record_all(b, es).capacity == b.capacity,
    decreases es.len(),
{
    if es.len() > 0 {
        lemma_record_all_keeps_every_event(b, es.drop_last());
        assert(es.drop_last().push(es.last()) =~= es);
        assert((b.events + es.drop_last()).push(es.last()) =~= b.events + es);
    }
}

} // verus!
