use std::collections::VecDeque;

use vstd::prelude::*;

verus! {

/// Why a send was refused; the item comes back to the sender.
#[derive(Debug, PartialEq, Eq)]
pub enum SendError<T> {
    /// The mailbox already holds as many items as its capacity.
    Full(T),
    /// The mailbox was closed.
    Closed(T),
}

/// The abstract state of a mailbox.
pub struct MailboxView<T> {
    /// The pending items, oldest first.
    pub queue: Seq<T>,
    pub capacity: nat,
    pub closed: bool,
}

impl<T> MailboxView<T> {
    /// The invariant of every mailbox: it never holds more than its capacity.
    pub open spec fn wf(self) -> bool {
        self.queue.len() <= self.capacity
    }

    /// Whether a send would be taken in.
    pub open spec fn accepts(self) -> bool {
        !self.closed && self.queue.len() < self.capacity
    }

    /// The state after `item` was offered.
    pub open spec fn offered(self, item: T) -> MailboxView<T> {
        if self.accepts() {
            MailboxView { queue: self.queue.push(item), ..self }
        } else {
            self
        }
    }

    /// The state after `items` were offered one after another, with nothing
    /// received in between.
    pub open spec fn offered_all(self, items: Seq<T>) -> MailboxView<T>
        decreases items.len(),
    {
        if items.len() == 0 {
            self
        } else {
            self.offered(items[0]).offered_all(items.drop_first())
        }
    }
}

/// A bounded first-in first-out queue of pending requests. A send never
/// waits: when the mailbox is full or closed it is refused at once.
pub struct Mailbox<T> {
    items: VecDeque<T>,
    capacity: usize,
    closed: bool,
}

impl<T> View for Mailbox<T> {
    type V = MailboxView<T>;

    closed spec fn view(&self) -> MailboxView<T> {
        MailboxView { queue: self.items@, capacity: self.capacity as nat, closed: self.closed }
    }
}

impl<T> Mailbox<T> {
    /// An open, empty mailbox that holds at most `capacity` items; with a
    /// capacity of zero every send is refused.
    pub fn new(capacity: usize) -> (m: Mailbox<T>)
        ensures
            m@.wf(),
            m@.queue.len() == 0,
            m@.capacity == capacity,
            !m@.closed,
    {
        Mailbox { items: VecDeque::new(), capacity, closed: false }
    }

    /// Offers `item`; it is queued behind the pending items, or handed back
    /// when the mailbox is full or closed.
    pub fn try_send(&mut self, item: T) -> (r: Result<(), SendError<T>>)
        requires
            old(self)@.wf(),
        ensures
            final(self)@ == old(self)@.offered(item),
            final(self)@.wf(),
            r is Ok <==> old(self)@.accepts(),
            old(self)@.closed ==> r == Err::<(), SendError<T>>(SendError::Closed(item)),
            !old(self)@.closed && !old(self)@.accepts() ==> r == Err::<(), SendError<T>>(
                SendError::Full(item),
            ),
    {
        if self.closed {
            Err(SendError::Closed(item))
        } else if self.items.len() >= self.capacity {
            Err(SendError::Full(item))
        } else {
            self.items.push_back(item);
            Ok(())
        }
    }

    /// Takes the oldest pending item, if there is one.
    pub fn recv(&mut self) -> (r: Option<T>)
        requires
            old(self)@.wf(),
        ensures
            final(self)@.wf(),
            final(self)@.capacity == old(self)@.capacity,
            final(self)@.closed == old(self)@.closed,
            match r {
                Some(item) => {
                    &&& old(self)@.queue.len() > 0
                    &&& item == old(self)@.queue[0]
                    &&& final(self)@.queue == old(self)@.queue.drop_first()
                },
                None => old(self)@.queue.len() == 0 && final(self)@.queue == old(self)@.queue,
            },
    {
        let r = self.items.pop_front();
        proof {
            if r is Some {
                assert(self.items@ =~= old(self)@.queue.drop_first());
            }
        }
        r
    }

    /// Closes the mailbox: every later send is refused, while the pending
    /// items can still be received.
    pub fn close(&mut self)
        requires
            old(self)@.wf(),
        ensures
            final(self)@ == (MailboxView { closed: true, ..old(self)@ }),
            final(self)@.wf(),
    {
        self.closed = true;
    }

    /// The number of pending items.
    pub fn len(&self) -> (r: usize)
        ensures
            r == self@.queue.len(),
    {
        self.items.len()
    }

    /// Whether no item is pending.
    pub fn is_empty(&self) -> (r: bool)
        ensures
            r == (self@.queue.len() == 0),
    {
        self.items.len() == 0
    }

    /// The most items the mailbox holds.
    pub fn capacity(&self) -> (r: usize)
        ensures
            r == self@.capacity,
    {
        self.capacity
    }

    /// Whether the mailbox was closed.
    pub fn is_closed(&self) -> (r: bool)
        ensures
            r == self@.closed,
    {
        self.closed
    }
}

/// Backpressure: when requests are sent to an open mailbox with nothing
/// received in between, exactly as many are queued as there was room for, in
/// the order in which they came, and every later one is refused; the queue
/// never grows past the capacity.
pub proof fn lemma_excess_sends_refused<T>(m: MailboxView<T>, items: Seq<T>)
    requires
        m.wf(),
        !m.closed,
    ensures
        ({
            let room = (m.capacity - m.queue.len()) as nat;
            let taken = if items.len() < room { items.len() } else { room };
            &&& m.offered_all(items).queue == m.queue + items.take(taken as int)
            &&& m.offered_all(items).wf()
            &&& m.offered_all(items).capacity == m.capacity
        }),
    decreases items.len(),
{
    let room = (m.capacity - m.queue.len()) as nat;
    if items.len() == 0 {
        assert(m.queue + items.take(0) =~= m.queue);
    } else if room == 0 {
        lemma_excess_sends_refused(m.offered(items[0]), items.drop_first());
        assert(m.queue + items.take(0) =~= m.queue);
        assert(m.queue + items.drop_first().take(0) =~= m.queue);
    } else {
        let next = m.offered(items[0]);
        lemma_excess_sends_refused(next, items.drop_first());
        let rest = items.drop_first();
        let taken_rest = if rest.len() < room - 1 { rest.len() } else { (room - 1) as nat };
        assert(next.queue + rest.take(taken_rest as int) =~= m.queue + items.take(taken_rest + 1 as int));
    }
}

} // verus!
