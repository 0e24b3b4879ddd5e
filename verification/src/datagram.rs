//! The datagram relay: one socket, one reusable buffer, and a strictly
//! sequential receive-then-forward cycle.
//!
//! The socket work is outside; the relay's own step takes each datagram as
//! it arrived and produces exactly the bytes to send on: the whole payload
//! when it fits the buffer, and its first `capacity` bytes when it does not.
//! Truncation is deterministic forwarding, not an error.

use vstd::prelude::*;

verus! {

/// What a datagram becomes on the way out: itself when it fits the buffer,
/// its first `cap` bytes when it does not.
pub open spec fn spec_truncated(d: Seq<u8>, cap: nat) -> Seq<u8> {
    if d.len() <= cap {
        d
    } else {
        d.take(cap as int)
    }
}

/// The datagram relay: the capacity of its single reusable buffer, and the
/// account of every datagram that passed through.
pub struct DatagramRelay {
    capacity: usize,
    received: Ghost<Seq<Seq<u8>>>,
    forwarded: Ghost<Seq<Seq<u8>>>,
}

impl DatagramRelay {
    /// The buffer's capacity in bytes.
    pub closed spec fn capacity(self) -> nat {
        self.capacity as nat
    }

    /// Every datagram received, in arrival order.
    pub closed spec fn received(self) -> Seq<Seq<u8>> {
        self.received@
    }

    /// Every datagram forwarded, in sending order.
    pub closed spec fn forwarded(self) -> Seq<Seq<u8>> {
        self.forwarded@
    }

    /// The relay invariant: the buffer holds at least one byte, one
    /// datagram goes out per datagram in, in the same order, and each one
    /// out is its counterpart in, truncated to the buffer's capacity.
    pub open spec fn wf(self) -> bool {
        &&& self.capacity() >= 1
        &&& self.forwarded().len() == self.received().len()
        &&& forall|i: int|
            0 <= i < self.received().len() ==> #[trigger] self.forwarded()[i] == spec_truncated(
                self.received()[i],
                self.capacity(),
            )
    }

    /// A fresh relay with the given buffer capacity.
    pub fn new(capacity: usize) -> (r: DatagramRelay)
        requires
            capacity >= 1,
        ensures
            r.wf(),
            r.capacity() == capacity,
            r.received() == Seq::<Seq<u8>>::empty(),
            r.forwarded() == Seq::<Seq<u8>>::empty(),
    {
        DatagramRelay { capacity, received: Ghost(Seq::empty()), forwarded: Ghost(Seq::empty()) }
    }

    /// The buffer's capacity, for a caller outside the proof.
    pub fn buffer_capacity(&self) -> (c: usize)
        ensures
            c == self.capacity(),
    {
        self.capacity
    }

    /// One cycle of the relay: a datagram arrived; produce exactly the
    /// bytes to forward to the send endpoint. A datagram that fits the
    /// buffer goes out unmodified; a larger one goes out truncated to
    /// exactly the buffer's capacity. The cycle is strictly sequential:
    /// this datagram is appended to the account before any later one.
    pub fn forward(&mut self, datagram: Vec<u8>) -> (out: Vec<u8>)
        requires
            old(self).wf(),
        ensures
            final(self).wf(),
            out@ == spec_truncated(datagram@, old(self).capacity()),
            datagram@.len() <= old(self).capacity() ==> out@ == datagram@,
            datagram@.len() > old(self).capacity() ==> out@.len() == old(self).capacity(),
            final(self).capacity() == old(self).capacity(),
            final(self).received() == old(self).received().push(datagram@),
            final(self).forwarded() == old(self).forwarded().push(out@),
    {
        let ghost arrived = datagram@;
        let mut out = datagram;
        if out.len() > self.capacity {
            out.truncate(self.capacity);
            proof {
                assert(out@ =~= spec_truncated(arrived, self.capacity as nat));
            }
        }
        self.received = Ghost(self.received@.push(arrived));
        self.forwarded = Ghost(self.forwarded@.push(out@));
        out
    }
}

/// Datagram fidelity, truncation and order, over a whole run: as many
/// datagrams went out as came in; the n-th datagram out is the n-th
/// datagram in, unmodified when it fit the buffer and cut to exactly the
/// buffer's capacity when it did not. No datagram overtakes an earlier one.
pub proof fn lemma_datagram_account(r: DatagramRelay)
    requires
        r.wf(),
    ensures
        r.forwarded().len() == r.received().len(),
        forall|i: int|
            0 <= i < r.received().len() && r.received()[i].len() <= r.capacity()
                ==> #[trigger] r.forwarded()[i] == r.received()[i],
        forall|i: int|
            0 <= i < r.received().len() && r.received()[i].len() > r.capacity()
                ==> #[trigger] r.forwarded()[i] == r.received()[i].take(r.capacity() as int),
{
}

} // verus!
