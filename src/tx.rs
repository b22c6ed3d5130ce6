//! Transmit ring: admission control, hand-off to the DMA engine and reclamation.
use vstd::prelude::*;
use crate::descriptor::{Owner, TxDescriptor, advance, memory_fence, wrap};

verus! {

/// The transmit ring as software sees it.
pub struct TxState {
    /// Number of descriptors.
    pub cap: nat,
    /// Slot of the oldest packet not yet reclaimed.
    pub first: nat,
    /// Packets handed to the engine and not yet reclaimed, oldest first;
    /// the `i`-th sits in slot `wrap(first + i, cap)`.
    pub queue: Seq<Seq<u8>>,
    /// Error status of each packet of `queue`.
    pub errors: Seq<bool>,
    /// How many packets at the front of `queue` the engine has finished.
    pub done: nat,
}

/// A transmit ring state that a ring can be in.
pub open spec fn tx_valid(s: TxState) -> bool {
    &&& s.cap > 0
    &&& s.first < s.cap
    &&& s.queue.len() <= s.cap
    &&& s.errors.len() == s.queue.len()
    &&& s.done <= s.queue.len()
}

/// The ring as built: every descriptor owned by software.
pub open spec fn tx_empty(cap: nat) -> TxState {
    TxState { cap, first: 0, queue: Seq::empty(), errors: Seq::empty(), done: 0 }
}

/// Descriptors owned by software and free for a new packet.
pub open spec fn tx_available(s: TxState) -> int {
    s.cap - s.queue.len()
}

/// Whether a descriptor is free for a new packet.
pub open spec fn tx_ready(s: TxState) -> bool {
    s.queue.len() < s.cap
}

/// Queue `p`, if a descriptor is free.
pub open spec fn tx_transmit(s: TxState, p: Seq<u8>) -> TxState {
    if tx_ready(s) {
        TxState { cap: s.cap, first: s.first, queue: s.queue.push(p), errors: s.errors.push(false), done: s.done }
    } else {
        s
    }
}

/// The engine finishes its oldest pending packet, if there is one.
pub open spec fn tx_complete(s: TxState, error: bool) -> TxState {
    if s.done < s.queue.len() {
        TxState {
            cap: s.cap,
            first: s.first,
            queue: s.queue,
            errors: s.errors.update(s.done as int, error),
            done: s.done + 1,
        }
    } else {
        s
    }
}

/// Software takes back every descriptor the engine has finished.
pub open spec fn tx_reclaim(s: TxState) -> TxState {
    TxState {
        cap: s.cap,
        first: wrap((s.first + s.done) as int, s.cap as int) as nat,
        queue: s.queue.skip(s.done as int),
        errors: s.errors.skip(s.done as int),
        done: 0,
    }
}

/// Some descriptor that reclamation takes back reports a transmit error.
pub open spec fn tx_reclaim_failed(s: TxState) -> bool {
    exists|i: int| 0 <= i < s.done && #[trigger] s.errors[i]
}

/// Reclamation found a descriptor whose frame the engine could not send.
#[derive(Debug, Clone, Copy, PartialEq, Eq, Structural)]
pub enum TxError {
    TransmitFailed,
}

/// No descriptor is free for another packet; retry after the next wake.
#[derive(Debug, Clone, Copy, PartialEq, Eq, Structural)]
pub struct QueueFull;

/// A ring of `N` transmit descriptors, with the position of the DMA engine in it.
pub struct TxRing<const N: usize> {
    descs: Vec<TxDescriptor>,
    /// Slot of the oldest descriptor not yet reclaimed.
    next_reclaim: usize,
    /// Slot the next packet goes into.
    next_free: usize,
    /// Descriptors handed to the engine and not yet reclaimed.
    in_flight: usize,
    /// The slot the engine works on next.
    dma_cursor: usize,
    /// How many of the in-flight descriptors the engine has finished.
    done: Ghost<nat>,
}

impl<const N: usize> TxRing<N> {
    pub closed spec fn slot(&self, k: int) -> int {
        wrap(self.next_reclaim + k, N as int)
    }

    pub closed spec fn expected_owner(&self, k: int) -> Owner {
        if self.done@ <= k < self.in_flight {
            Owner::Dma
        } else {
            Owner::Software
        }
    }

    /// Indices agree, and the descriptors in flight form a finished run
    /// followed by a pending run, all others being owned by software.
    pub closed spec fn wf(&self) -> bool {
        &&& N > 0
        &&& self.descs@.len() == N
        &&& self.next_reclaim < N
        &&& self.in_flight <= N
        &&& self.done@ <= self.in_flight
        &&& self.next_free == wrap(self.next_reclaim + self.in_flight, N as int)
        &&& self.dma_cursor == wrap(self.next_reclaim + self.done@, N as int)
        &&& forall|k: int|
            0 <= k < N ==> (#[trigger] self.descs@[self.slot(k)]).owner == self.expected_owner(k)
        &&& forall|k: int| self.in_flight <= k < N ==> !(#[trigger] self.descs@[self.slot(k)]).error
        &&& forall|k: int| self.done@ <= k < self.in_flight ==> !(#[trigger] self.descs@[self.slot(k)]).error
    }

    pub closed spec fn view(&self) -> TxState {
        TxState {
            cap: N as nat,
            first: self.next_reclaim as nat,
            queue: Seq::new(self.in_flight as nat, |k: int| self.descs@[self.slot(k)].buffer@),
            errors: Seq::new(self.in_flight as nat, |k: int| self.descs@[self.slot(k)].error),
            done: self.done@,
        }
    }

    /// A well-formed ring's state is one the ring laws speak of.
    pub proof fn lemma_valid(&self)
        requires
            self.wf(),
        ensures
            tx_valid(self@),
    {
    }

    /// What the slot `i` holds.
    pub closed spec fn slot_buffer(&self, i: int) -> Seq<u8> {
        self.descs@[i].buffer@
    }

    /// The length and end-of-packet flag of slot `i`.
    pub closed spec fn slot_framing(&self, i: int) -> (usize, bool) {
        (self.descs@[i].len, self.descs@[i].end_of_packet)
    }

    /// A ring with every descriptor owned by software and nothing queued.
    pub fn new() -> (r: Self)
        requires
            N > 0,
        ensures
            r.wf(),
            r@ == tx_empty(N as nat),
    {
        let mut descs: Vec<TxDescriptor> = Vec::new();
        let mut i: usize = 0;
        while i < N
            invariant
                i <= N,
                descs@.len() == i,
                forall|j: int| 0 <= j < i ==> (#[trigger] descs@[j]).owner == Owner::Software && !descs@[j].error,
            decreases N - i,
        {
            descs.push(TxDescriptor::idle());
            i += 1;
        }
        let r = TxRing { descs, next_reclaim: 0, next_free: 0, in_flight: 0, dma_cursor: 0, done: Ghost(0) };
        assert(r@.queue =~= Seq::<Seq<u8>>::empty());
        assert(r@.errors =~= Seq::<bool>::empty());
        r
    }

    /// Queues `pkt` in the next free descriptor and hands that descriptor to the engine.
    pub fn transmit(&mut self, pkt: Vec<u8>) -> (r: Result<(), QueueFull>)
        requires
            old(self).wf(),
        ensures
            final(self).wf(),
            r is Ok <==> tx_ready(old(self)@),
            final(self)@ == tx_transmit(old(self)@, pkt@),
            r is Ok ==> final(self).slot_buffer(wrap((old(self)@.first + old(self)@.queue.len()) as int, N as int)) == pkt@,
            r is Ok ==> final(self).slot_framing(wrap((old(self)@.first + old(self)@.queue.len()) as int, N as int)) == (
            pkt@.len() as usize, true),
    {
        if self.in_flight >= N {
            return Err(QueueFull);
        }
        let i = self.next_free;
        let len = pkt.len();
        let d = TxDescriptor { owner: Owner::Software, error: false, end_of_packet: true, len, buffer: pkt };
        self.descs.set(i, d);
        // The engine must see the whole descriptor before it sees the ownership flip.
        memory_fence();
        let d = TxDescriptor { owner: Owner::Dma, error: false, end_of_packet: true, len, buffer: self.take_buffer(i) };
        self.descs.set(i, d);
        self.next_free = advance(i, N);
        self.in_flight = self.in_flight + 1;
        proof {
            assert(i == old(self).slot(old(self).in_flight as int));
            assert forall|k: int| 0 <= k < N implies (#[trigger] self.descs@[self.slot(k)]).owner == self.expected_owner(k) by {
                assert(self.slot(k) == old(self).slot(k));
                if k != old(self).in_flight {
                    assert(self.slot(k) != i);
                }
            }
            assert forall|k: int| self.in_flight <= k < N implies !(#[trigger] self.descs@[self.slot(k)]).error by {
                assert(self.slot(k) == old(self).slot(k));
                assert(self.slot(k) != i);
            }
            assert forall|k: int| self.done@ <= k < self.in_flight implies !(#[trigger] self.descs@[self.slot(k)]).error by {
                assert(self.slot(k) == old(self).slot(k));
                if k != old(self).in_flight {
                    assert(self.slot(k) != i);
                }
            }
            assert(self@.queue =~= old(self)@.queue.push(pkt@)) by {
                assert forall|k: int| 0 <= k < old(self).in_flight implies self.slot(k) != i by {}
            }
            assert(self@.errors =~= old(self)@.errors.push(false)) by {
                assert forall|k: int| 0 <= k < old(self).in_flight implies self.slot(k) != i by {}
            }
        }
        Ok(())
    }

    /// Takes the buffer out of slot `i`, leaving an empty one.
    fn take_buffer(&mut self, i: usize) -> (b: Vec<u8>)
        requires
            i < old(self).descs@.len(),
        ensures
            b@ == old(self).descs@[i as int].buffer@,
            final(self).descs@.len() == old(self).descs@.len(),
            forall|j: int| 0 <= j < old(self).descs@.len() && j != i ==> final(self).descs@[j] == old(self).descs@[j],
            final(self).descs@[i as int].owner == old(self).descs@[i as int].owner,
            final(self).descs@[i as int].error == old(self).descs@[i as int].error,
            final(self).next_reclaim == old(self).next_reclaim,
            final(self).next_free == old(self).next_free,
            final(self).in_flight == old(self).in_flight,
            final(self).dma_cursor == old(self).dma_cursor,
            final(self).done == old(self).done,
    {
        let mut b: Vec<u8> = Vec::new();
        std::mem::swap(&mut b, &mut self.descs[i].buffer);
        b
    }

    /// Sets the owner and error status of slot `i`, keeping its buffer.
    fn set_status(&mut self, i: usize, owner: Owner, error: bool)
        requires
            i < old(self).descs@.len(),
        ensures
            final(self).descs@.len() == old(self).descs@.len(),
            forall|j: int| 0 <= j < old(self).descs@.len() && j != i ==> final(self).descs@[j] == old(self).descs@[j],
            final(self).descs@[i as int].owner == owner,
            final(self).descs@[i as int].error == error,
            final(self).descs@[i as int].buffer@ == old(self).descs@[i as int].buffer@,
            final(self).next_reclaim == old(self).next_reclaim,
            final(self).next_free == old(self).next_free,
            final(self).in_flight == old(self).in_flight,
            final(self).dma_cursor == old(self).dma_cursor,
            final(self).done == old(self).done,
    {
        self.descs[i].owner = owner;
        self.descs[i].error = error;
    }

    /// The simulated DMA engine finishes the oldest descriptor it owns, if any,
    /// reporting `error` in its status, and gives it back to software.
    /// Returns whether there was one.
    pub fn dma_complete(&mut self, error: bool) -> (r: bool)
        requires
            old(self).wf(),
        ensures
            final(self).wf(),
            r <==> old(self)@.done < old(self)@.queue.len(),
            final(self)@ == tx_complete(old(self)@, error),
    {
        let c = self.dma_cursor;
        proof {
            if self.done@ == N {
                assert(self.slot(0) == c);
            } else {
                assert(self.slot(self.done@ as int) == c);
            }
        }
        if self.descs[c].owner != Owner::Dma {
            return false;
        }
        self.set_status(c, Owner::Software, error);
        self.dma_cursor = advance(c, N);
        self.done = Ghost(self.done@ + 1);
        proof {
            let d0 = old(self).done@ as int;
            assert(c == old(self).slot(d0));
            assert forall|k: int| 0 <= k < N implies (#[trigger] self.descs@[self.slot(k)]).owner == self.expected_owner(k) by {
                assert(self.slot(k) == old(self).slot(k));
                if k != d0 {
                    assert(self.slot(k) != c);
                }
            }
            assert forall|k: int| self.in_flight <= k < N implies !(#[trigger] self.descs@[self.slot(k)]).error by {
                assert(self.slot(k) == old(self).slot(k));
                assert(self.slot(k) != c);
            }
            assert forall|k: int| self.done@ <= k < self.in_flight implies !(#[trigger] self.descs@[self.slot(k)]).error by {
                assert(self.slot(k) == old(self).slot(k));
                assert(self.slot(k) != c);
            }
            assert(self@.queue =~= old(self)@.queue) by {
                assert forall|k: int| 0 <= k < self.in_flight implies self.descs@[self.slot(k)].buffer@ == old(self).descs@[old(self).slot(k)].buffer@ by {
                    assert(self.slot(k) == old(self).slot(k));
                }
            }
            assert(self@.errors =~= old(self)@.errors.update(d0, error)) by {
                assert forall|k: int| 0 <= k < self.in_flight && k != d0 implies self.slot(k) != c by {}
            }
        }
        true
    }

    /// Takes back every descriptor the engine has finished, oldest first,
    /// releasing its buffer; fails if any of them reports a transmit error.
    pub fn on_interrupt(&mut self) -> (r: Result<(), TxError>)
        requires
            old(self).wf(),
        ensures
            final(self).wf(),
            final(self)@ == tx_reclaim(old(self)@),
            r is Err <==> tx_reclaim_failed(old(self)@),
    {
        let ghost s0 = self@;
        let ghost mut n: nat = 0;
        assert(self@.queue.skip(0) =~= self@.queue);
        assert(self@.errors.skip(0) =~= self@.errors);
        let mut failed = false;
        while self.in_flight > 0 && self.descs[self.next_reclaim].owner == Owner::Software
            invariant
                self.wf(),
                n <= s0.done,
                s0.done <= s0.queue.len(),
                s0.first < N,
                s0.queue.len() <= N,
                s0.errors.len() == s0.queue.len(),
                self@.cap == s0.cap,
                self@.first == wrap((s0.first + n) as int, N as int),
                self@.queue == s0.queue.skip(n as int),
                self@.errors == s0.errors.skip(n as int),
                self@.done == s0.done - n,
                failed <==> exists|i: int| 0 <= i < n && #[trigger] s0.errors[i],
            decreases self.in_flight,
        {
            proof {
                assert(self.slot(0) == self.next_reclaim);
                assert(self.descs@[self.slot(0)].owner == self.expected_owner(0));
                assert(n < s0.done);
            }
            // Read the status only after seeing the ownership come back.
            memory_fence();
            let i = self.next_reclaim;
            if self.descs[i].error {
                failed = true;
            }
            let ghost prev = *self;
            self.descs.set(i, TxDescriptor::idle());
            self.next_reclaim = advance(i, N);
            self.in_flight = self.in_flight - 1;
            self.done = Ghost((self.done@ - 1) as nat);
            proof {
                assert(prev@.errors[0] == s0.errors[n as int]);
                assert forall|k: int| 0 <= k < N implies #[trigger] self.slot(k) == (if k + 1 < N { prev.slot(k + 1) } else { i as int }) by {}
                assert forall|k: int| 0 <= k < N implies (#[trigger] self.descs@[self.slot(k)]).owner == self.expected_owner(k) by {
                    if k + 1 < N {
                        assert(prev.descs@[prev.slot(k + 1)].owner == prev.expected_owner(k + 1));
                        assert(prev.slot(k + 1) != i);
                    }
                }
                assert forall|k: int| self.in_flight <= k < N implies !(#[trigger] self.descs@[self.slot(k)]).error by {
                    if k + 1 < N {
                        assert(!prev.descs@[prev.slot(k + 1)].error);
                        assert(prev.slot(k + 1) != i);
                    }
                }
                assert forall|k: int| self.done@ <= k < self.in_flight implies !(#[trigger] self.descs@[self.slot(k)]).error by {
                    assert(!prev.descs@[prev.slot(k + 1)].error);
                    assert(prev.slot(k + 1) != i);
                }
                assert(self@.queue =~= prev@.queue.skip(1)) by {
                    assert forall|k: int| 0 <= k < self.in_flight implies self.descs@[self.slot(k)].buffer@ == prev.descs@[prev.slot(k + 1)].buffer@ by {
                        assert(prev.slot(k + 1) != i);
                    }
                }
                assert(self@.errors =~= prev@.errors.skip(1)) by {
                    assert forall|k: int| 0 <= k < self.in_flight implies self.descs@[self.slot(k)].error == prev.descs@[prev.slot(k + 1)].error by {
                        assert(prev.slot(k + 1) != i);
                    }
                }
                assert(s0.queue.skip(n as int).skip(1) =~= s0.queue.skip((n + 1) as int));
                assert(s0.errors.skip(n as int).skip(1) =~= s0.errors.skip((n + 1) as int));
                n = n + 1;
            }
        }
        proof {
            if self.in_flight > 0 {
                assert(self.slot(0) == self.next_reclaim);
                assert(self.descs@[self.slot(0)].owner == self.expected_owner(0));
            }
            assert(n == s0.done);
        }
        if failed {
            Err(TxError::TransmitFailed)
        } else {
            Ok(())
        }
    }

    /// The buffer of slot `i`: a queued packet, or empty once reclaimed.
    pub fn slot_packet(&self, i: usize) -> (r: &Vec<u8>)
        requires
            self.wf(),
            i < N,
        ensures
            r@ == self.slot_buffer(i as int),
    {
        &self.descs[i].buffer
    }

    /// Number of descriptors.
    pub fn capacity(&self) -> (r: usize)
        ensures
            r == N,
    {
        N
    }

    /// Whether a descriptor is free for another packet.
    pub fn available(&self) -> (r: bool)
        requires
            self.wf(),
        ensures
            r == tx_ready(self@),
    {
        self.in_flight < N
    }

    /// Number of descriptors free for another packet.
    pub fn free_count(&self) -> (r: usize)
        requires
            self.wf(),
        ensures
            r == tx_available(self@),
    {
        N - self.in_flight
    }
}

} // verus!
