//! Descriptors: the records that software and the DMA engine hand back and forth.
use vstd::prelude::*;

verus! {

/// Which side may read and write a descriptor at this instant.
#[derive(Debug, Clone, Copy, PartialEq, Eq, Structural)]
pub enum Owner {
    Software,
    Dma,
}

/// A transmit descriptor and the buffer it points at.
pub struct TxDescriptor {
    pub owner: Owner,
    /// Set by the engine when the frame could not be sent.
    pub error: bool,
    /// Set by software: the buffer holds the end of a frame.
    pub end_of_packet: bool,
    /// Number of bytes of `buffer` to send.
    pub len: usize,
    pub buffer: Vec<u8>,
}

/// A receive descriptor and the buffer it points at.
pub struct RxDescriptor {
    pub owner: Owner,
    /// Set by the engine when the frame arrived damaged.
    pub error: bool,
    pub buffer: Vec<u8>,
}

impl TxDescriptor {
    /// A descriptor owned by software with nothing queued.
    pub fn idle() -> (r: TxDescriptor)
        ensures
            r.owner == Owner::Software,
            !r.error,
            r.buffer@ == Seq::<u8>::empty(),
    {
        TxDescriptor { owner: Owner::Software, error: false, end_of_packet: false, len: 0, buffer: Vec::new() }
    }
}

impl RxDescriptor {
    /// A descriptor handed to the engine, ready to receive.
    pub fn armed() -> (r: RxDescriptor)
        ensures
            r.owner == Owner::Dma,
            !r.error,
            r.buffer@ == Seq::<u8>::empty(),
    {
        RxDescriptor { owner: Owner::Dma, error: false, buffer: Vec::new() }
    }
}

/// The index after `i` in a ring of `n` slots.
pub open spec fn next_index(i: int, n: int) -> int {
    if i + 1 == n {
        0
    } else {
        i + 1
    }
}

/// `x` folded once into `0..n`, for `0 <= x < 2 * n`.
pub open spec fn wrap(x: int, n: int) -> int {
    if x < n {
        x
    } else {
        x - n
    }
}

pub fn advance(i: usize, n: usize) -> (r: usize)
    requires
        i < n,
    ensures
        r == next_index(i as int, n as int),
        r < n,
{
    if i + 1 == n {
        0
    } else {
        i + 1
    }
}

/// Relies on core::sync::atomic::fence: every write before it is visible to the
/// DMA engine before any write after it, so the engine never sees a descriptor
/// change owner before its contents are complete.
#[verifier::external_body]
pub(crate) fn memory_fence() {
    core::sync::atomic::fence(core::sync::atomic::Ordering::SeqCst)
}

} // verus!
