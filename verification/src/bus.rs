//! A bounded broadcast channel: one writable sender side, any number of
//! independently paced receiver cursors. A receiver that falls behind by more
//! than the capacity observes a lagged condition reporting how many messages
//! it skipped, instead of blocking the publisher or growing memory without
//! bound.

use vstd::prelude::*;

verus! {

/// Default backlog capacity of a broadcast channel.
pub const DEFAULT_BUS_CAPACITY: usize = 16;

/// A bounded broadcast channel. The bus retains the most recent `capacity`
/// published messages; each receiver cursor reads them at its own pace.
pub struct Bus<T> {
    buffer: Vec<T>,
    capacity: usize,
    first_seq: u64,
    receivers: u64,
    history: Ghost<Seq<T>>,
}

/// An independent cursor into a bus: the sequence number of the next message
/// this receiver will read.
#[derive(Clone, Copy, PartialEq, Eq, Structural, Debug)]
pub struct BusReceiver {
    pub next_seq: u64,
}

/// Error returned when a value could not be published; carries the value
/// back to the caller.
#[derive(Debug)]
pub struct SendError<T>(pub T);

/// The outcome of polling a receiver cursor.
#[derive(Debug)]
pub enum TryRecvResult<'a, T> {
    /// No message is currently available to this cursor.
    Empty,
    /// The cursor fell behind by more than the capacity; this many messages
    /// were skipped. The next poll yields the oldest retained message.
    Lagged(u64),
    /// The next message, in publication order.
    Message(&'a T),
}

/// Sequence number of the oldest message a channel of capacity `cap` still
/// retains after `len` messages were published.
pub open spec fn oldest_retained(len: nat, cap: nat) -> nat {
    if len <= cap {
        0
    } else {
        (len - cap) as nat
    }
}

/// How many messages a cursor at `cursor` has missed for good after `len`
/// publications on a channel of capacity `cap`.
pub open spec fn lag_of(len: nat, cap: nat, cursor: nat) -> nat {
    if cursor < oldest_retained(len, cap) {
        (oldest_retained(len, cap) - cursor) as nat
    } else {
        0
    }
}

impl<T> Bus<T> {
    /// Every message ever published on this bus, in publication order.
    pub closed spec fn history(self) -> Seq<T> {
        self.history@
    }

    /// The configured backlog capacity.
    pub closed spec fn capacity_spec(self) -> nat {
        self.capacity as nat
    }

    /// How many receiver cursors were handed out.
    pub closed spec fn receiver_count_spec(self) -> u64 {
        self.receivers
    }

    /// Structural invariant: the buffer holds exactly the retained suffix of
    /// the history, and the whole history still fits sequence numbering.
    pub closed spec fn wf(self) -> bool {
        &&& self.capacity >= 1
        &&& self.history@.len() <= u64::MAX
        &&& self.first_seq as nat == oldest_retained(self.history@.len(), self.capacity as nat)
        &&& self.buffer@ == self.history@.skip(self.first_seq as int)
    }

    /// A fresh channel with the given backlog capacity and no receivers.
    pub fn new(capacity: usize) -> (r: Bus<T>)
        requires
            capacity >= 1,
        ensures
            r.wf(),
            r.history() == Seq::<T>::empty(),
            r.capacity_spec() == capacity,
            r.receiver_count_spec() == 0,
    {
        let r = Bus {
            buffer: Vec::new(),
            capacity,
            first_seq: 0,
            receivers: 0,
            history: Ghost(Seq::empty()),
        };
        proof {
            assert(r.buffer@ =~= r.history@.skip(0));
        }
        r
    }

    /// How many receiver cursors were handed out.
    pub fn receiver_count(&self) -> (r: u64)
        ensures
            r == self.receiver_count_spec(),
    {
        self.receivers
    }

    /// A new independent cursor, subscribed at the current end of the
    /// history: it sees messages published from this point onward only.
    pub fn subscribe(&mut self) -> (r: BusReceiver)
        requires
            old(self).wf(),
            old(self).receiver_count_spec() < u64::MAX,
        ensures
            final(self).wf(),
            final(self).history() == old(self).history(),
            final(self).capacity_spec() == old(self).capacity_spec(),
            final(self).receiver_count_spec() == old(self).receiver_count_spec() + 1,
            r.next_seq as nat == old(self).history().len(),
    {
        self.receivers = self.receivers + 1;
        let next = self.first_seq + self.buffer.len() as u64;
        BusReceiver { next_seq: next }
    }

    /// Publish a message on the unconditional path: with no receivers the
    /// message is not retained and comes back in the error, so this caller
    /// can tell that nobody listened (for try semantics see `try_send`);
    /// otherwise it is appended to the history (evicting the oldest retained
    /// message when the buffer is full) and the number of receivers is
    /// returned.
    pub fn send(&mut self, value: T) -> (r: Result<u64, SendError<T>>)
        requires
            old(self).wf(),
            old(self).history().len() < u64::MAX,
        ensures
            final(self).wf(),
            final(self).capacity_spec() == old(self).capacity_spec(),
            final(self).receiver_count_spec() == old(self).receiver_count_spec(),
            old(self).receiver_count_spec() == 0 ==> {
                &&& r matches Err(e) && e.0 == value
                &&& final(self).history() == old(self).history()
            },
            old(self).receiver_count_spec() > 0 ==> {
                &&& r == Ok::<u64, SendError<T>>(old(self).receiver_count_spec())
                &&& final(self).history() == old(self).history().push(value)
            },
    {
        if self.receivers == 0 {
            return Err(SendError(value));
        }
        if self.buffer.len() >= self.capacity && self.buffer.len() > 0 {
            self.buffer.remove(0);
            self.first_seq = self.first_seq + 1;
        }
        self.buffer.push(value);
        proof {
            self.history@ = self.history@.push(value);
            assert(self.buffer@ =~= self.history@.skip(self.first_seq as int));
        }
        Ok(self.receivers)
    }

    /// Publish a message with try semantics: having no receivers is not an
    /// error. The value is delivered to however many receivers there are —
    /// to none, when there are none, in which case it is not retained — and
    /// that count is returned.
    pub fn try_send(&mut self, value: T) -> (r: u64)
        requires
            old(self).wf(),
            old(self).history().len() < u64::MAX,
        ensures
            final(self).wf(),
            final(self).capacity_spec() == old(self).capacity_spec(),
            final(self).receiver_count_spec() == old(self).receiver_count_spec(),
            r == old(self).receiver_count_spec(),
            old(self).receiver_count_spec() > 0 ==> final(self).history() == old(
                self,
            ).history().push(value),
            old(self).receiver_count_spec() == 0 ==> final(self).history() == old(
                self,
            ).history(),
    {
        let count = self.receivers;
        let _ = self.send(value);
        count
    }

    /// Poll a cursor. A cursor behind the oldest retained message first
    /// observes how many messages it skipped and is repositioned; a cursor at
    /// the end of the history sees nothing; otherwise it yields the next
    /// message and advances.
    pub fn try_recv<'a>(&'a self, rx: &mut BusReceiver) -> (r: TryRecvResult<'a, T>)
        requires
            self.wf(),
        ensures
            ({
                let len = self.history().len();
                let cap = self.capacity_spec();
                let cursor = old(rx).next_seq as nat;
                let oldest = oldest_retained(len, cap);
                if cursor < oldest {
                    &&& r matches TryRecvResult::Lagged(n) && n as nat == lag_of(len, cap, cursor)
                    &&& final(rx).next_seq as nat == oldest
                } else if cursor >= len {
                    &&& r is Empty
                    &&& *final(rx) == *old(rx)
                } else {
                    &&& r matches TryRecvResult::Message(m) && *m == self.history()[cursor as int]
                    &&& final(rx).next_seq == old(rx).next_seq + 1
                }
            }),
    {
        if rx.next_seq < self.first_seq {
            let skipped = self.first_seq - rx.next_seq;
            rx.next_seq = self.first_seq;
            TryRecvResult::Lagged(skipped)
        } else {
            let offset = rx.next_seq - self.first_seq;
            if offset >= self.buffer.len() as u64 {
                TryRecvResult::Empty
            } else {
                rx.next_seq = rx.next_seq + 1;
                TryRecvResult::Message(&self.buffer[offset as usize])
            }
        }
    }

    /// How many published messages the cursor has not yet read, the skipped
    /// ones included.
    pub fn pending(&self, rx: &BusReceiver) -> (r: u64)
        requires
            self.wf(),
        ensures
            rx.next_seq as nat <= self.history().len() ==> r as nat == self.history().len()
                - rx.next_seq as nat,
            rx.next_seq as nat > self.history().len() ==> r == 0,
    {
        let end = self.first_seq + self.buffer.len() as u64;
        if rx.next_seq >= end {
            0
        } else {
            end - rx.next_seq
        }
    }
}

/// Bus lag tolerance: a receiver whose cursor has fallen exactly `cap + k`
/// messages behind the history (with `k >= 1`) observes, on its next poll, a
/// lag of exactly `k`; the repositioned cursor then points at a message the
/// bus still retains, so the poll after that yields a message rather than
/// blocking or failing.
pub proof fn lemma_bus_lag(cursor: nat, cap: nat, k: nat, len: nat)
    requires
        cap >= 1,
        k >= 1,
        len == cursor + cap + k,
    ensures
        cursor < oldest_retained(len, cap),
        lag_of(len, cap, cursor) == k,
        oldest_retained(len, cap) < len,
{
}

} // verus!
