//! Receive ring: frames written by the DMA engine, handed out in arrival order.
use vstd::prelude::*;
use crate::descriptor::{Owner, RxDescriptor, advance, memory_fence, next_index, wrap};

verus! {

/// The receive ring as software sees it.
pub struct RxState {
    /// Number of descriptors.
    pub cap: nat,
    /// Slot of the oldest frame not yet read.
    pub first: nat,
    /// Frames the engine has written and software has not read, oldest first;
    /// the `i`-th sits in slot `wrap(first + i, cap)`.
    pub frames: Seq<Seq<u8>>,
    /// Whether each frame of `frames` arrived damaged.
    pub errors: Seq<bool>,
}

/// A receive ring state that a ring can be in.
pub open spec fn rx_valid(s: RxState) -> bool {
    &&& s.cap > 0
    &&& s.first < s.cap
    &&& s.frames.len() <= s.cap
    &&& s.errors.len() == s.frames.len()
}

/// The ring as built: every descriptor armed for the engine.
pub open spec fn rx_empty(cap: nat) -> RxState {
    RxState { cap, first: 0, frames: Seq::empty(), errors: Seq::empty() }
}

/// The engine writes frame `f` into the next armed descriptor; with none
/// armed the frame is lost.
pub open spec fn rx_deliver(s: RxState, f: Seq<u8>, error: bool) -> RxState {
    if s.frames.len() < s.cap {
        RxState { cap: s.cap, first: s.first, frames: s.frames.push(f), errors: s.errors.push(error) }
    } else {
        s
    }
}

/// State after software reads the oldest frame, which is then recycled.
pub open spec fn rx_pop_state(s: RxState) -> RxState {
    if s.frames.len() == 0 {
        s
    } else {
        RxState {
            cap: s.cap,
            first: next_index(s.first as int, s.cap as int) as nat,
            frames: s.frames.drop_first(),
            errors: s.errors.drop_first(),
        }
    }
}

/// Packet that reading the oldest frame hands out: none for a damaged frame.
pub open spec fn rx_pop_packet(s: RxState) -> Option<Seq<u8>> {
    if s.frames.len() == 0 || s.errors[0] {
        None
    } else {
        Some(s.frames[0])
    }
}

/// A ring of `N` receive descriptors, with the position of the DMA engine in it.
pub struct RxRing<const N: usize> {
    descs: Vec<RxDescriptor>,
    /// Slot of the oldest frame not yet read.
    next_read: usize,
    /// The slot the engine writes next.
    dma_cursor: usize,
    /// How many descriptors hold a frame not yet read.
    filled: Ghost<nat>,
}

impl<const N: usize> RxRing<N> {
    pub closed spec fn slot(&self, k: int) -> int {
        wrap(self.next_read + k, N as int)
    }

    /// Indices agree; the descriptors holding unread frames form one run
    /// from the read cursor, all others are armed for the engine.
    pub closed spec fn wf(&self) -> bool {
        &&& N > 0
        &&& self.descs@.len() == N
        &&& self.next_read < N
        &&& self.filled@ <= N
        &&& self.dma_cursor == wrap(self.next_read + self.filled@, N as int)
        &&& forall|k: int|
            0 <= k < N ==> (#[trigger] self.descs@[self.slot(k)]).owner == (if k < self.filled@ {
                Owner::Software
            } else {
                Owner::Dma
            })
    }

    pub closed spec fn view(&self) -> RxState {
        RxState {
            cap: N as nat,
            first: self.next_read as nat,
            frames: Seq::new(self.filled@, |k: int| self.descs@[self.slot(k)].buffer@),
            errors: Seq::new(self.filled@, |k: int| self.descs@[self.slot(k)].error),
        }
    }

    /// A well-formed ring's state is one the ring laws speak of.
    pub proof fn lemma_valid(&self)
        requires
            self.wf(),
        ensures
            rx_valid(self@),
    {
    }

    /// A ring with every descriptor armed for the engine.
    pub fn new() -> (r: Self)
        requires
            N > 0,
        ensures
            r.wf(),
            r@ == rx_empty(N as nat),
    {
        let mut descs: Vec<RxDescriptor> = Vec::new();
        let mut i: usize = 0;
        while i < N
            invariant
                i <= N,
                descs@.len() == i,
                forall|j: int| 0 <= j < i ==> (#[trigger] descs@[j]).owner == Owner::Dma,
            decreases N - i,
        {
            descs.push(RxDescriptor::armed());
            i += 1;
        }
        let r = RxRing { descs, next_read: 0, dma_cursor: 0, filled: Ghost(0) };
        assert(r@.frames =~= Seq::<Seq<u8>>::empty());
        assert(r@.errors =~= Seq::<bool>::empty());
        r
    }

    /// Number of descriptors.
    pub fn capacity(&self) -> (r: usize)
        ensures
            r == N,
    {
        N
    }

    /// Whether a frame waits at the read cursor; the interrupt handler calls
    /// this to decide that the consumer should poll again.
    pub fn on_interrupt(&self) -> (r: bool)
        requires
            self.wf(),
        ensures
            r == (self@.frames.len() > 0),
    {
        proof {
            assert(self.slot(0) == self.next_read);
        }
        self.descs[self.next_read].owner == Owner::Software
    }

    /// The simulated DMA engine writes `frame` into the next armed descriptor,
    /// marking it damaged when `error` holds, and gives it to software.
    /// Returns false, dropping the frame, when no descriptor is armed.
    pub fn dma_receive(&mut self, frame: Vec<u8>, error: bool) -> (r: bool)
        requires
            old(self).wf(),
        ensures
            final(self).wf(),
            r <==> old(self)@.frames.len() < N,
            final(self)@ == rx_deliver(old(self)@, frame@, error),
    {
        let c = self.dma_cursor;
        proof {
            if self.filled@ == N {
                assert(self.slot(0) == c);
            } else {
                assert(self.slot(self.filled@ as int) == c);
            }
        }
        if self.descs[c].owner != Owner::Dma {
            return false;
        }
        self.descs.set(c, RxDescriptor { owner: Owner::Software, error, buffer: frame });
        self.dma_cursor = advance(c, N);
        self.filled = Ghost(self.filled@ + 1);
        proof {
            let f0 = old(self).filled@ as int;
            assert(c == old(self).slot(f0));
            assert forall|k: int| 0 <= k < N implies (#[trigger] self.descs@[self.slot(k)]).owner == (if k < self.filled@ {
                Owner::Software
            } else {
                Owner::Dma
            }) by {
                assert(self.slot(k) == old(self).slot(k));
                if k != f0 {
                    assert(self.slot(k) != c);
                }
            }
            assert(self@.frames =~= old(self)@.frames.push(frame@)) by {
                assert forall|k: int| 0 <= k < f0 implies self.slot(k) != c by {}
            }
            assert(self@.errors =~= old(self)@.errors.push(error)) by {
                assert forall|k: int| 0 <= k < f0 implies self.slot(k) != c by {}
            }
        }
        true
    }

    /// Reads the frame at the read cursor, if the engine has written one, and
    /// hands its descriptor back to the engine with a fresh buffer. A damaged
    /// frame is recycled the same way and yields nothing.
    pub fn pop_packet(&mut self) -> (r: Option<Vec<u8>>)
        requires
            old(self).wf(),
        ensures
            final(self).wf(),
            final(self)@ == rx_pop_state(old(self)@),
            match r {
                Some(p) => rx_pop_packet(old(self)@) == Some(p@),
                None => rx_pop_packet(old(self)@) is None,
            },
    {
        let i = self.next_read;
        proof {
            assert(self.slot(0) == i);
        }
        if self.descs[i].owner != Owner::Software {
            return None;
        }
        // Read the descriptor only after seeing the ownership come back.
        memory_fence();
        let mut d = RxDescriptor { owner: Owner::Software, error: false, buffer: Vec::new() };
        std::mem::swap(&mut d, &mut self.descs[i]);
        // The engine must see the fresh buffer before it owns the descriptor again.
        memory_fence();
        self.descs.set(i, RxDescriptor::armed());
        self.next_read = advance(i, N);
        self.filled = Ghost((self.filled@ - 1) as nat);
        proof {
            let prev = *old(self);
            assert forall|k: int| 0 <= k < N implies #[trigger] self.slot(k) == (if k + 1 < N { prev.slot(k + 1) } else { i as int }) by {}
            assert forall|k: int| 0 <= k < N implies (#[trigger] self.descs@[self.slot(k)]).owner == (if k < self.filled@ {
                Owner::Software
            } else {
                Owner::Dma
            }) by {
                if k + 1 < N {
                    assert(prev.descs@[prev.slot(k + 1)].owner == (if k + 1 < prev.filled@ { Owner::Software } else { Owner::Dma }));
                    assert(prev.slot(k + 1) != i);
                }
            }
            assert(self@.frames =~= prev@.frames.drop_first()) by {
                assert forall|k: int| 0 <= k < self.filled@ implies self.descs@[self.slot(k)].buffer@ == prev.descs@[prev.slot(k + 1)].buffer@ by {
                    assert(prev.slot(k + 1) != i);
                }
            }
            assert(self@.errors =~= prev@.errors.drop_first()) by {
                assert forall|k: int| 0 <= k < self.filled@ implies self.descs@[self.slot(k)].error == prev.descs@[prev.slot(k + 1)].error by {
                    assert(prev.slot(k + 1) != i);
                }
            }
        }
        if d.error {
            None
        } else {
            Some(d.buffer)
        }
    }
}

} // verus!
