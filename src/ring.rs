//! The pair of transmit and receive rings the DMA engine works on.
use vstd::prelude::*;
use crate::rx::{RxRing, rx_empty};
use crate::tx::{TxRing, tx_empty};

verus! {

/// `TX` transmit and `RX` receive descriptors with their buffers.
pub struct DescriptorRing<const TX: usize, const RX: usize> {
    pub tx: TxRing<TX>,
    pub rx: RxRing<RX>,
}

impl<const TX: usize, const RX: usize> DescriptorRing<TX, RX> {
    pub open spec fn wf(&self) -> bool {
        self.tx.wf() && self.rx.wf()
    }

    /// Both rings in their initial state.
    pub fn new() -> (r: Self)
        requires
            TX > 0,
            RX > 0,
        ensures
            r.wf(),
            r.tx@ == tx_empty(TX as nat),
            r.rx@ == rx_empty(RX as nat),
    {
        DescriptorRing { tx: TxRing::new(), rx: RxRing::new() }
    }

    /// Puts every transmit descriptor in software's hands with nothing queued
    /// and arms every receive descriptor for the engine. Runs before the
    /// engines start, as they read the rings' base addresses then.
    pub fn init(&mut self)
        requires
            TX > 0,
            RX > 0,
        ensures
            final(self).wf(),
            final(self).tx@ == tx_empty(TX as nat),
            final(self).rx@ == rx_empty(RX as nat),
    {
        self.tx = TxRing::new();
        self.rx = RxRing::new();
    }
}

} // verus!
