//! Chip bring-up settings.
use vstd::prelude::*;

verus! {

/// Settings for bringing the chip up; the clock tree has no options yet.
#[derive(Debug, Clone, Copy, Default)]
pub struct Config {}

} // verus!
