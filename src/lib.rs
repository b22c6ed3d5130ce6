//! Ethernet MAC/DMA driver core: descriptor rings, interrupt bridge,
//! station management (MDIO) and the pin model it is built on.
use vstd::prelude::*;

pub mod config;
pub mod descriptor;
pub mod eth;
pub mod gpio;
pub mod laws;
pub mod mdio;
pub mod pins;
pub mod ring;
pub mod sequence;
pub mod rx;
pub mod tx;
pub mod waker;

verus! {

} // verus!
