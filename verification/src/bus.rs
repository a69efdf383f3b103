//! The distribution bus: a bounded broadcast of messages to any number of
//! subscribers, each with a cursor of its own. The producer is never held
//! up: when the bus is full the oldest message goes, and a subscriber that
//! had not read it yet is told how many it lost.

use vstd::prelude::*;
use std::collections::VecDeque;
use crate::message::{Message, MessageView};

verus! {

/// What one call of `receive` hands to a subscriber.
#[derive(Clone, Debug, PartialEq, Eq)]
pub enum Received {
    /// The next message, in publish order.
    Message(Message),
    /// This many messages were dropped before the subscriber read them.
    Lagged(u64),
    /// Nothing has been published past the cursor yet.
    Empty,
    /// The bus is closed and the subscriber has read everything on it.
    Closed,
}

/// What a `Received` holds.
pub enum ReceivedView {
    Message(MessageView),
    Lagged(u64),
    Empty,
    Closed,
}

impl View for Received {
    type V = ReceivedView;

    open spec fn view(&self) -> ReceivedView {
        match *self {
            Received::Message(m) => ReceivedView::Message(m@),
            Received::Lagged(k) => ReceivedView::Lagged(k),
            Received::Empty => ReceivedView::Empty,
            Received::Closed => ReceivedView::Closed,
        }
    }
}

/// What a bus is: its fixed capacity, every message accepted since it was
/// made, in publish order, and whether it has been closed. The sequence
/// number of a message is its index in `history`.
pub struct BusView {
    pub capacity: usize,
    pub history: Seq<MessageView>,
    pub closed: bool,
}

impl BusView {
    /// How many of the latest messages are still held.
    pub open spec fn retained(self) -> int {
        if self.history.len() <= self.capacity {
            self.history.len() as int
        } else {
            self.capacity as int
        }
    }

    /// The sequence number of the oldest message still held.
    pub open spec fn oldest(self) -> int {
        self.history.len() - self.retained()
    }

    /// Whether `publish` takes a message: the bus is open and sequence
    /// numbers are left.
    pub open spec fn accepts(self) -> bool {
        !self.closed && self.history.len() < u64::MAX
    }

    /// The bus after a call of `publish`.
    pub open spec fn publish(self, m: MessageView) -> BusView {
        if self.accepts() {
            BusView { history: self.history.push(m), ..self }
        } else {
            self
        }
    }

    /// The outcome of `receive` for a subscriber whose cursor is `cursor`,
    /// and the cursor afterwards.
    pub open spec fn receive(self, cursor: u64) -> (ReceivedView, u64) {
        if cursor < self.oldest() {
            (ReceivedView::Lagged((self.oldest() - cursor) as u64), self.oldest() as u64)
        } else if cursor < self.history.len() {
            (ReceivedView::Message(self.history[cursor as int]), (cursor + 1) as u64)
        } else if self.closed {
            (ReceivedView::Closed, cursor)
        } else {
            (ReceivedView::Empty, cursor)
        }
    }

    /// The cursor after `n` calls of `receive` in a row.
    pub open spec fn cursor_after(self, cursor: u64, n: nat) -> u64
        decreases n,
    {
        if n == 0 {
            cursor
        } else {
            self.receive(self.cursor_after(cursor, (n - 1) as nat)).1
        }
    }

    /// The outcome of the call of `receive` that follows `n` earlier ones.
    pub open spec fn outcome_after(self, cursor: u64, n: nat) -> ReceivedView {
        self.receive(self.cursor_after(cursor, n)).0
    }
}

/// A subscriber's place on the bus: the sequence number of the message it
/// reads next.
#[derive(Debug)]
pub struct Subscriber {
    cursor: u64,
}

impl View for Subscriber {
    type V = u64;

    closed spec fn view(&self) -> u64 {
        self.cursor
    }
}

/// The bus itself. It keeps the latest messages, at most `capacity` of them.
pub struct Bus {
    capacity: usize,
    retained: VecDeque<Message>,
    published: u64,
    closed: bool,
    history: Ghost<Seq<MessageView>>,
}

impl View for Bus {
    type V = BusView;

    closed spec fn view(&self) -> BusView {
        BusView { capacity: self.capacity, history: self.history@, closed: self.closed }
    }
}

impl Bus {
    /// The held messages are the latest of the history, oldest first.
    pub closed spec fn wf(&self) -> bool {
        &&& self.published as int == self.history@.len()
        &&& self.retained@.len() == self@.retained()
        &&& forall|i: int|
            0 <= i < self.retained@.len() ==> (#[trigger] self.retained@[i])@
                == self.history@[self@.oldest() + i]
    }

    /// An open bus of the given capacity on which nothing was published.
    pub fn new(capacity: usize) -> (bus: Bus)
        ensures
            bus.wf(),
            bus@ == (BusView { capacity, history: Seq::empty(), closed: false }),
    {
        Bus {
            capacity,
            retained: VecDeque::new(),
            published: 0,
            closed: false,
            history: Ghost(Seq::empty()),
        }
    }

    /// The fixed capacity.
    pub fn capacity(&self) -> (n: usize)
        ensures
            n == self@.capacity,
    {
        self.capacity
    }

    /// The number of messages accepted so far: the next sequence number.
    pub fn published(&self) -> (n: u64)
        requires
            self.wf(),
        ensures
            n == self@.history.len(),
    {
        self.published
    }

    /// Puts `msg` on the bus, dropping the oldest held message if the bus is
    /// full. No subscriber is consulted and none can hold this up. The
    /// message is refused only by a closed bus, or once sequence numbers
    /// have run out.
    pub fn publish(&mut self, msg: Message) -> (accepted: bool)
        requires
            old(self).wf(),
        ensures
            final(self).wf(),
            accepted == old(self)@.accepts(),
            final(self)@ == old(self)@.publish(msg@),
    {
        if self.closed || self.published == u64::MAX {
            return false;
        }
        let ghost before = self.retained@;
        let ghost past = self.history@;
        let ghost start = self@.oldest();
        if self.capacity > 0 {
            if self.retained.len() >= self.capacity {
                let _ = self.retained.pop_front();
            }
            self.history = Ghost(past.push(msg@));
            self.retained.push_back(msg);
        } else {
            self.history = Ghost(past.push(msg@));
        }
        self.published = self.published + 1;
        proof {
            assert forall|i: int| 0 <= i < self.retained@.len() implies (
            #[trigger] self.retained@[i])@ == self.history@[self@.oldest() + i] by {
                if i < self.retained@.len() - 1 {
                    let j = self@.oldest() + i - start;
                    assert(self.retained@[i] == before[j]);
                    assert(before[j]@ == past[start + j]);
                }
            }
        }
        true
    }

    /// Closes the bus: nothing more is accepted, and a subscriber that has
    /// read everything is told so.
    pub fn close(&mut self)
        requires
            old(self).wf(),
        ensures
            final(self).wf(),
            final(self)@ == (BusView { closed: true, ..old(self)@ }),
    {
        self.closed = true;
    }

    /// A new subscriber. It starts at the current sequence number: nothing
    /// published before is replayed to it.
    pub fn subscribe(&self) -> (sub: Subscriber)
        requires
            self.wf(),
        ensures
            sub@ == self@.history.len(),
    {
        Subscriber { cursor: self.published }
    }

    /// Hands `sub` its next message, or tells it once how many it lost, or
    /// that there is nothing yet, or that the bus is closed. The bus is not
    /// changed: what one subscriber does is never seen by another.
    pub fn receive(&self, sub: &mut Subscriber) -> (got: Received)
        requires
            self.wf(),
        ensures
            got@ == self@.receive(old(sub)@).0,
            final(sub)@ == self@.receive(old(sub)@).1,
    {
        let held: u64 = self.retained.len() as u64;
        let oldest: u64 = self.published - held;
        if sub.cursor < oldest {
            let skipped: u64 = oldest - sub.cursor;
            sub.cursor = oldest;
            Received::Lagged(skipped)
        } else if sub.cursor < self.published {
            let at: usize = (sub.cursor - oldest) as usize;
            let m: Message = self.retained[at].duplicate();
            sub.cursor = sub.cursor + 1;
            Received::Message(m)
        } else if self.closed {
            Received::Closed
        } else {
            Received::Empty
        }
    }
}

/// A subscriber that has fallen behind what the bus still holds is told so
/// exactly once: the first call reports the number of messages between its
/// cursor and the oldest held message, which are the ones it lost, and the
/// calls that follow hand it every held message, oldest first, with no
/// further report.
pub proof fn lemma_lag_reported_once(bus: BusView, cursor: u64, j: nat)
    requires
        bus.history.len() <= u64::MAX,
        cursor < bus.oldest(),
        j < bus.retained(),
    ensures
        bus.outcome_after(cursor, 0) == ReceivedView::Lagged((bus.oldest() - cursor) as u64),
        bus.cursor_after(cursor, j + 1) == bus.oldest() + j,
        bus.outcome_after(cursor, j + 1) == ReceivedView::Message(bus.history[bus.oldest() + j]),
    decreases j,
{
    reveal_with_fuel(BusView::cursor_after, 2);
    if j > 0 {
        lemma_lag_reported_once(bus, cursor, (j - 1) as nat);
    }
}

/// With a capacity of `N` and more than `N` messages published past the
/// cursor, the number reported lost is the number published past the cursor
/// less `N`.
pub proof fn lemma_lag_count(bus: BusView, cursor: u64)
    requires
        bus.history.len() <= u64::MAX,
        bus.history.len() - cursor > bus.capacity,
    ensures
        bus.receive(cursor).0 == ReceivedView::Lagged(
            (bus.history.len() - cursor - bus.capacity) as u64,
        ),
        bus.receive(cursor).1 == bus.history.len() - bus.capacity,
{
}

/// A subscriber reads in publish order, whatever is published in between
/// and whatever other subscribers do: of two calls in a row, with any
/// number of messages published between them, each hands out the message
/// whose sequence number the cursor held, and the cursor never moves back,
/// so the second message was published after the first.
pub proof fn lemma_delivery_in_publish_order(before: BusView, after: BusView, cursor: u64)
    requires
        after.history.len() <= u64::MAX,
        before.capacity == after.capacity,
        before.history.len() <= after.history.len(),
        before.history == after.history.subrange(0, before.history.len() as int),
    ensures
        before.receive(cursor).1 >= cursor,
        after.receive(before.receive(cursor).1).1 >= before.receive(cursor).1,
        before.receive(cursor).0 is Message ==> {
            &&& before.receive(cursor).0->Message_0 == after.history[cursor as int]
            &&& before.receive(cursor).1 == cursor + 1
        },
        after.receive(before.receive(cursor).1).0 is Message ==> after.receive(
            before.receive(cursor).1,
        ).0->Message_0 == after.history[before.receive(cursor).1 as int],
{
}

/// A slow subscriber's lag is its own: on one and the same bus, a subscriber
/// that has fallen behind what the bus holds is told what it lost, while one
/// that has kept up is handed the message at its cursor and loses nothing.
pub proof fn lemma_fast_subscriber_unaffected(bus: BusView, fast: u64, slow: u64)
    requires
        bus.history.len() <= u64::MAX,
        bus.oldest() <= fast < bus.history.len(),
        slow < bus.oldest(),
    ensures
        bus.receive(slow).0 == ReceivedView::Lagged((bus.oldest() - slow) as u64),
        bus.receive(fast).0 == ReceivedView::Message(bus.history[fast as int]),
        bus.receive(fast).1 == fast + 1,
{
}

/// Publishing appends to the history and changes nothing else: sequence
/// numbers only grow, and the capacity stays what it was.
pub proof fn lemma_publish_appends(bus: BusView, m: MessageView)
    ensures
        bus.publish(m).capacity == bus.capacity,
        bus.publish(m).closed == bus.closed,
        bus.accepts() ==> bus.publish(m).history == bus.history.push(m),
        !bus.accepts() ==> bus.publish(m) == bus,
        bus.publish(m).retained() <= bus.capacity,
{
}

} // verus!
