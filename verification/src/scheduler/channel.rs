//! A verified model of the result channel: the bounded FIFO mailbox from
//! running instances back to the code that registered the task.
//!
//! Producers are the zero or more live instances, each holding its own
//! sender clone, plus — while the id stays registered — the registry's
//! retained clone; the consumer is the receiver handed back by
//! registration. The channel reaches end-of-stream exactly when every
//! sender clone has been released; removing the registration alone releases
//! one clone and never closes a channel whose instances still hold theirs.

use vstd::prelude::*;

verus! {

/// What one read attempt on the receiver yields.
#[derive(Debug)]
pub enum Recv<T> {
    /// The oldest buffered value.
    Value(T),
    /// Nothing buffered yet, but senders are alive: the read suspends.
    Pending,
    /// Nothing buffered and every sender clone released: end-of-stream.
    Closed,
}

/// The state of one result channel: its fixed capacity, the values sent
/// but not yet taken, and the number of live sender clones.
pub struct ChannelModel<T> {
    capacity: usize,
    buffer: Vec<T>,
    senders: u64,
    sent: Ghost<Seq<T>>,
    taken: Ghost<Seq<T>>,
}

impl<T> ChannelModel<T> {
    /// The capacity fixed at registration time.
    pub closed spec fn capacity_spec(&self) -> usize {
        self.capacity
    }

    /// The values sent and not yet taken, oldest first.
    pub closed spec fn buffered(&self) -> Seq<T> {
        self.buffer@
    }

    /// How many sender clones are live.
    pub closed spec fn live_senders(&self) -> u64 {
        self.senders
    }

    /// Every value ever sent, in sending order.
    pub closed spec fn sent(&self) -> Seq<T> {
        self.sent@
    }

    /// Every value the receiver has taken, in taking order.
    pub closed spec fn taken(&self) -> Seq<T> {
        self.taken@
    }

    /// The one closing condition: every sender clone has been released.
    pub open spec fn is_closed(&self) -> bool {
        self.live_senders() == 0
    }

    /// What every operation preserves: the receiver's history followed by
    /// the buffered values is exactly the sending history, and the buffer
    /// never outgrows the capacity.
    pub closed spec fn wf(&self) -> bool {
        &&& self.taken@ + self.buffer@ == self.sent@
        &&& self.buffer@.len() <= self.capacity
        &&& self.capacity >= 1
    }

    /// A fresh channel of the given capacity, with one live sender: the
    /// registry's retained clone.
    pub fn new(capacity: usize) -> (c: ChannelModel<T>)
        requires
            capacity >= 1,
        ensures
            c.wf(),
            c.capacity_spec() == capacity,
            c.live_senders() == 1,
            c.buffered() == Seq::<T>::empty(),
            c.sent() == Seq::<T>::empty(),
            c.taken() == Seq::<T>::empty(),
    {
        ChannelModel {
            capacity,
            buffer: Vec::new(),
            senders: 1,
            sent: Ghost(Seq::empty()),
            taken: Ghost(Seq::empty()),
        }
    }

    /// One more sender clone comes alive: the stored factory clones the
    /// sender into each fresh instance.
    pub fn clone_sender(&mut self)
        requires
            old(self).wf(),
            old(self).live_senders() >= 1,
            old(self).live_senders() < u64::MAX,
        ensures
            final(self).wf(),
            final(self).live_senders() == old(self).live_senders() + 1,
            final(self).capacity_spec() == old(self).capacity_spec(),
            final(self).buffered() == old(self).buffered(),
            final(self).sent() == old(self).sent(),
            final(self).taken() == old(self).taken(),
    {
        self.senders = self.senders + 1;
    }

    /// One sender clone is released: an instance finished or was cancelled,
    /// or the registration was removed. Nothing buffered is lost.
    pub fn drop_sender(&mut self)
        requires
            old(self).wf(),
            old(self).live_senders() >= 1,
        ensures
            final(self).wf(),
            final(self).live_senders() == old(self).live_senders() - 1,
            final(self).capacity_spec() == old(self).capacity_spec(),
            final(self).buffered() == old(self).buffered(),
            final(self).sent() == old(self).sent(),
            final(self).taken() == old(self).taken(),
    {
        self.senders = self.senders - 1;
    }

    /// A live instance sends a value and there is room for it. On a full
    /// channel a send suspends until space frees — it never drops or
    /// overwrites — so the model simply has no send step on a full buffer.
    pub fn send(&mut self, v: T)
        requires
            old(self).wf(),
            old(self).live_senders() >= 1,
            old(self).buffered().len() < old(self).capacity_spec(),
        ensures
            final(self).wf(),
            final(self).live_senders() == old(self).live_senders(),
            final(self).capacity_spec() == old(self).capacity_spec(),
            final(self).buffered() == old(self).buffered().push(v),
            final(self).sent() == old(self).sent().push(v),
            final(self).taken() == old(self).taken(),
    {
        let ghost sent_value: T = v;
        self.buffer.push(v);
        self.sent = Ghost(self.sent@.push(sent_value));
        proof {
            assert(self.taken@ + self.buffer@ =~= self.sent@);
        }
    }

    /// One read attempt by the receiver: the oldest buffered value if any;
    /// otherwise the read suspends while any sender clone is alive, and
    /// yields end-of-stream exactly when none is. Removing the registration
    /// while instances are in flight does not close the channel: their
    /// clones are still alive.
    pub fn recv(&mut self) -> (r: Recv<T>)
        requires
            old(self).wf(),
        ensures
            final(self).wf(),
            final(self).live_senders() == old(self).live_senders(),
            final(self).capacity_spec() == old(self).capacity_spec(),
            final(self).sent() == old(self).sent(),
            old(self).buffered().len() > 0 ==> {
                &&& r matches Recv::Value(v) && v == old(self).buffered()[0]
                &&& final(self).buffered() == old(self).buffered().remove(0)
                &&& final(self).taken() == old(self).taken().push(old(self).buffered()[0])
            },
            old(self).buffered().len() == 0 && !old(self).is_closed() ==> {
                &&& r matches Recv::Pending
                &&& final(self).buffered() == old(self).buffered()
                &&& final(self).taken() == old(self).taken()
            },
            old(self).buffered().len() == 0 && old(self).is_closed() ==> {
                &&& r matches Recv::Closed
                &&& final(self).buffered() == old(self).buffered()
                &&& final(self).taken() == old(self).taken()
            },
    {
        if self.buffer.len() > 0 {
            let v = self.buffer.remove(0);
            let ghost taken_value: T = v;
            self.taken = Ghost(self.taken@.push(taken_value));
            proof {
                old(self).buffer@.remove_ensures(0);
                assert(self.taken@ + self.buffer@ =~= self.sent@);
            }
            Recv::Value(v)
        } else if self.senders > 0 {
            Recv::Pending
        } else {
            Recv::Closed
        }
    }

    /// How many values are buffered.
    pub fn len(&self) -> (n: usize)
        ensures
            n == self.buffered().len(),
    {
        self.buffer.len()
    }

    /// How many sender clones are live.
    pub fn sender_count(&self) -> (n: u64)
        ensures
            n == self.live_senders(),
    {
        self.senders
    }

    /// The capacity fixed at registration time.
    pub fn capacity(&self) -> (n: usize)
        ensures
            n == self.capacity_spec(),
    {
        self.capacity
    }
}

/// The receiver observes every value that was sent, in sending order, and
/// only those values: what it has taken is a prefix of the sending history,
/// and once the buffer is drained it has taken exactly that history.
pub proof fn lemma_receiver_sees_exactly_what_was_sent<T>(c: &ChannelModel<T>)
    requires
        c.wf(),
    ensures
        c.taken() + c.buffered() == c.sent(),
        c.taken() == c.sent().subrange(0, c.taken().len() as int),
        c.buffered().len() == 0 ==> c.taken() == c.sent(),
{
    assert(c.taken() =~= c.sent().subrange(0, c.taken().len() as int));
    if c.buffered().len() == 0 {
        assert(c.taken() =~= c.sent());
    }
}

} // verus!
