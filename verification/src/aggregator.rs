//! The batch aggregator: a buffer of records with two flush triggers, one on
//! the buffer's length and one on the time since the last flush.
//!
//! Time is a reading of a monotonic clock in milliseconds, handed in by the
//! caller with each event.

use vstd::prelude::*;

verus! {

/// What an aggregator is: its buffered records, the time of its last flush
/// and its two thresholds.
pub struct AggregatorView<T> {
    pub buffer: Seq<T>,
    pub last_flush: u64,
    pub size_threshold: usize,
    pub interval: u64,
}

/// Time gone by at `now` since `last_flush`; none if the clock reads earlier.
pub open spec fn elapsed(last_flush: u64, now: u64) -> int {
    if now >= last_flush {
        now - last_flush
    } else {
        0
    }
}

impl<T> AggregatorView<T> {
    /// The buffer length at which a size flush fires. A threshold of zero
    /// flushes every record by itself, as a threshold of one does.
    pub open spec fn limit(self) -> int {
        if self.size_threshold == 0 {
            1
        } else {
            self.size_threshold as int
        }
    }

    /// Between events the buffer is always short of the limit.
    pub open spec fn wf(self) -> bool {
        self.buffer.len() < self.limit()
    }

    /// The state after a flush at `now`.
    pub open spec fn flushed(self, now: u64) -> Self {
        AggregatorView { buffer: Seq::empty(), last_flush: now, ..self }
    }

    /// Whether the time trigger fires at `now`.
    pub open spec fn time_due(self, now: u64) -> bool {
        elapsed(self.last_flush, now) > self.interval && self.buffer.len() > 0
    }

    /// Adds `record`; flushes the whole buffer if its length has reached the
    /// limit.
    pub open spec fn push(self, record: T, now: u64) -> (Self, Option<Seq<T>>) {
        let grown = self.buffer.push(record);
        if grown.len() >= self.limit() {
            (self.flushed(now), Some(grown))
        } else {
            (AggregatorView { buffer: grown, ..self }, None)
        }
    }

    /// Flushes the whole buffer if the time trigger fires at `now`.
    pub open spec fn poll(self, now: u64) -> (Self, Option<Seq<T>>) {
        if self.time_due(now) {
            (self.flushed(now), Some(self.buffer))
        } else {
            (self, None)
        }
    }

    /// Adds `record`, then applies the size trigger and, if that did not
    /// fire, the time trigger.
    pub open spec fn offer(self, record: T, now: u64) -> (Self, Option<Seq<T>>) {
        let pushed = self.push(record, now);
        if pushed.1 is Some {
            pushed
        } else {
            pushed.0.poll(now)
        }
    }

    /// Offers `records[i]` at `times[i]`, in order; gives the state reached
    /// and the batches flushed on the way.
    pub open spec fn feed(self, records: Seq<T>, times: Seq<u64>) -> (Self, Seq<Seq<T>>)
        recommends
            records.len() == times.len(),
        decreases records.len(),
    {
        if records.len() == 0 {
            (self, Seq::empty())
        } else {
            let before = self.feed(records.drop_last(), times.drop_last());
            let step = before.0.offer(records.last(), times.last());
            match step.1 {
                Some(batch) => (step.0, before.1.push(batch)),
                None => (step.0, before.1),
            }
        }
    }
}

/// A buffer of records that turns into a batch when it is long enough or old
/// enough. The two thresholds are fixed when it is made.
pub struct Aggregator<T> {
    buffer: Vec<T>,
    last_flush: u64,
    size_threshold: usize,
    interval: u64,
}

impl<T> View for Aggregator<T> {
    type V = AggregatorView<T>;

    closed spec fn view(&self) -> AggregatorView<T> {
        AggregatorView {
            buffer: self.buffer@,
            last_flush: self.last_flush,
            size_threshold: self.size_threshold,
            interval: self.interval,
        }
    }
}

/// The view of a batch that may be absent.
pub open spec fn batch_view<T>(b: Option<Vec<T>>) -> Option<Seq<T>> {
    match b {
        Some(v) => Some(v@),
        None => None,
    }
}

impl<T> Aggregator<T> {
    /// An empty aggregator whose last flush counts as having happened at
    /// `now`.
    pub fn new(size_threshold: usize, interval: u64, now: u64) -> (a: Self)
        ensures
            a@ == (AggregatorView::<T> {
                buffer: Seq::empty(),
                last_flush: now,
                size_threshold,
                interval,
            }),
            a@.wf(),
    {
        Aggregator { buffer: Vec::new(), last_flush: now, size_threshold, interval }
    }

    /// The number of buffered records.
    pub fn len(&self) -> (n: usize)
        ensures
            n == self@.buffer.len(),
    {
        self.buffer.len()
    }

    /// The time of the last flush.
    pub fn last_flush(&self) -> (t: u64)
        ensures
            t == self@.last_flush,
    {
        self.last_flush
    }

    fn take_all(&mut self, now: u64) -> (batch: Vec<T>)
        ensures
            batch@ == old(self)@.buffer,
            final(self)@ == old(self)@.flushed(now),
    {
        let mut batch: Vec<T> = Vec::new();
        std::mem::swap(&mut self.buffer, &mut batch);
        self.last_flush = now;
        batch
    }

    /// Buffers `record`. When that brings the buffer to the size threshold,
    /// the whole buffer comes back as one batch, however little time has
    /// gone by, and the aggregator starts again empty at `now`.
    pub fn push(&mut self, record: T, now: u64) -> (batch: Option<Vec<T>>)
        ensures
            final(self)@ == old(self)@.push(record, now).0,
            batch_view(batch) == old(self)@.push(record, now).1,
            old(self)@.wf() ==> final(self)@.wf(),
    {
        self.buffer.push(record);
        let limit: usize = if self.size_threshold == 0 {
            1
        } else {
            self.size_threshold
        };
        if self.buffer.len() >= limit {
            Some(self.take_all(now))
        } else {
            None
        }
    }

    /// Applies the time trigger: when more than the interval has gone by
    /// since the last flush and the buffer is not empty, the whole buffer
    /// comes back as one batch and the aggregator starts again empty at
    /// `now`. Otherwise nothing changes.
    pub fn poll(&mut self, now: u64) -> (batch: Option<Vec<T>>)
        ensures
            final(self)@ == old(self)@.poll(now).0,
            batch_view(batch) == old(self)@.poll(now).1,
            old(self)@.wf() ==> final(self)@.wf(),
    {
        let gone: u64 = if now >= self.last_flush {
            now - self.last_flush
        } else {
            0
        };
        if gone > self.interval && self.buffer.len() > 0 {
            Some(self.take_all(now))
        } else {
            None
        }
    }

    /// Buffers `record` and applies both triggers, size first. At most one
    /// batch comes back.
    pub fn offer(&mut self, record: T, now: u64) -> (batch: Option<Vec<T>>)
        ensures
            final(self)@ == old(self)@.offer(record, now).0,
            batch_view(batch) == old(self)@.offer(record, now).1,
            old(self)@.wf() ==> final(self)@.wf(),
    {
        let by_size = self.push(record, now);
        if by_size.is_some() {
            by_size
        } else {
            self.poll(now)
        }
    }
}

/// A batch is never empty, and well-formedness is kept by every event.
pub proof fn lemma_batches_non_empty<T>(v: AggregatorView<T>, record: T, now: u64)
    ensures
        v.push(record, now).1 is Some ==> v.push(record, now).1->0.len() > 0,
        v.poll(now).1 is Some ==> v.poll(now).1->0.len() > 0,
        v.offer(record, now).1 is Some ==> v.offer(record, now).1->0.len() > 0,
        v.wf() ==> v.push(record, now).0.wf() && v.poll(now).0.wf() && v.offer(record, now).0.wf(),
{
}

/// The size trigger fires exactly when a record brings the buffer to the
/// limit, whatever the clock reads; the batch is then the whole buffer with
/// the new record last, and nothing stays behind.
pub proof fn lemma_size_flush_exact<T>(v: AggregatorView<T>, record: T, now: u64)
    requires
        v.wf(),
    ensures
        v.push(record, now).1 is Some <==> v.buffer.len() + 1 == v.limit(),
        v.push(record, now).1 is Some ==> {
            &&& v.push(record, now).1->0 == v.buffer.push(record)
            &&& v.push(record, now).1->0.len() == v.limit()
            &&& v.push(record, now).0.buffer.len() == 0
            &&& v.push(record, now).0.last_flush == now
        },
        v.push(record, now).1 is None ==> v.push(record, now).0.buffer == v.buffer.push(record),
{
}

/// While fewer records than the limit have come in and no more than the
/// interval has gone by since the last flush, nothing is flushed: every
/// record offered is still in the buffer, in order of arrival.
pub proof fn lemma_no_flush_before_interval<T>(
    v: AggregatorView<T>,
    records: Seq<T>,
    times: Seq<u64>,
)
    requires
        records.len() == times.len(),
        v.buffer.len() + records.len() < v.limit(),
        forall|i: int| 0 <= i < times.len() ==> elapsed(v.last_flush, #[trigger] times[i]) <= v.interval,
    ensures
        v.feed(records, times).1.len() == 0,
        v.feed(records, times).0 == (AggregatorView { buffer: v.buffer + records, ..v }),
    decreases records.len(),
{
    if records.len() == 0 {
        assert(v.buffer + records =~= v.buffer);
    } else {
        let r0 = records.drop_last();
        let t0 = times.drop_last();
        assert forall|i: int| 0 <= i < t0.len() implies elapsed(v.last_flush, #[trigger] t0[i])
            <= v.interval by {
            assert(t0[i] == times[i]);
        }
        lemma_no_flush_before_interval(v, r0, t0);
        let _ = times[times.len() - 1];
        assert((v.buffer + r0).push(records.last()) =~= v.buffer + records);
    }
}

/// Once more than the interval has gone by since the last flush, the time
/// trigger fires on a buffer that is not empty, and the batch is all of it.
pub proof fn lemma_time_flush<T>(v: AggregatorView<T>, now: u64)
    ensures
        v.poll(now).1 is Some <==> (elapsed(v.last_flush, now) > v.interval && v.buffer.len() > 0),
        v.poll(now).1 is Some ==> {
            &&& v.poll(now).1->0 == v.buffer
            &&& v.poll(now).0.buffer.len() == 0
            &&& v.poll(now).0.last_flush == now
        },
        v.poll(now).1 is None ==> v.poll(now).0 == v,
{
}

/// Records that arrive within the interval are flushed by size alone: after
/// one record short of the limit nothing has been flushed, and the next
/// record, at any time, brings back all of them as one batch.
pub proof fn lemma_size_flush_after_limit<T>(
    v: AggregatorView<T>,
    records: Seq<T>,
    times: Seq<u64>,
    record: T,
    now: u64,
)
    requires
        v.buffer.len() == 0,
        records.len() == times.len(),
        records.len() + 1 == v.limit(),
        forall|i: int| 0 <= i < times.len() ==> elapsed(v.last_flush, #[trigger] times[i]) <= v.interval,
    ensures
        v.feed(records, times).1.len() == 0,
        v.feed(records, times).0.offer(record, now).1 == Some(records.push(record)),
        v.feed(records, times).0.offer(record, now).0.buffer.len() == 0,
{
    lemma_no_flush_before_interval(v, records, times);
    assert(v.buffer + records =~= records);
}

} // verus!
