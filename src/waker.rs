//! A single-slot notification target: the latest registration wins.
use vstd::prelude::*;

verus! {

/// Holds at most one target to notify; registering replaces the previous one.
pub struct WakerSlot<W> {
    slot: Option<W>,
}

impl<W> WakerSlot<W> {
    pub closed spec fn view(&self) -> Option<W> {
        self.slot
    }

    /// An empty slot.
    pub fn new() -> (r: Self)
        ensures
            r@ is None,
    {
        WakerSlot { slot: None }
    }

    /// Replaces whatever was registered with `w`.
    pub fn register(&mut self, w: W)
        ensures
            final(self)@ == Some(w),
    {
        self.slot = Some(w);
    }

    /// Takes the registered target out, to notify it; the slot is then empty.
    pub fn take(&mut self) -> (r: Option<W>)
        ensures
            r == old(self)@,
            final(self)@ is None,
    {
        self.slot.take()
    }

    /// Whether a target is registered.
    pub fn is_registered(&self) -> (r: bool)
        ensures
            r == self@ is Some,
    {
        self.slot.is_some()
    }
}

} // verus!
