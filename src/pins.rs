//! The signals the driver needs from the chip's pins, and which pin can carry
//! which signal.
use vstd::prelude::*;
use crate::gpio::AnyPin;

verus! {

/// A pin that knows its packed bank/pin identifier.
pub trait Pin {
    fn pin_bank(&self) -> u8;
}

impl Pin for AnyPin {
    fn pin_bank(&self) -> u8 {
        AnyPin::pin_bank(self)
    }
}

/// A pin that can carry the reference clock.
pub trait RefClkPin: Pin {
    /// Selects the pin's alternate function and drive strength.
    fn configure(&mut self);
}

/// A pin that can carry management data.
pub trait MDIOPin: Pin {
    fn configure(&mut self);
}

/// A pin that can carry the management clock.
pub trait MDCPin: Pin {
    fn configure(&mut self);
}

/// A pin that can carry carrier sense / receive data valid.
pub trait CRSPin: Pin {
    fn configure(&mut self);
}

/// A pin that can carry receive data bit 0.
pub trait RXD0Pin: Pin {
    fn configure(&mut self);
}

/// A pin that can carry receive data bit 1.
pub trait RXD1Pin: Pin {
    fn configure(&mut self);
}

/// A pin that can carry transmit data bit 0.
pub trait TXD0Pin: Pin {
    fn configure(&mut self);
}

/// A pin that can carry transmit data bit 1.
pub trait TXD1Pin: Pin {
    fn configure(&mut self);
}

/// A pin that can carry transmit enable.
pub trait TXEnPin: Pin {
    fn configure(&mut self);
}

/// A signal of the reduced media-independent interface.
#[derive(Debug, Clone, Copy, PartialEq, Eq, Structural)]
pub enum Signal {
    RefClk,
    Mdio,
    Mdc,
    CrsDv,
    Rxd0,
    Rxd1,
    Txd0,
    Txd1,
    TxEn,
}

/// One row of a chip's pin table: this pin carries this signal under this
/// alternate function.
#[derive(Debug, Clone, Copy, PartialEq, Eq, Structural)]
pub struct PinFunction {
    pub pin_bank: u8,
    pub signal: Signal,
    pub af: u8,
}

/// The alternate function of the first row for `pin_bank` and `signal`.
pub open spec fn af_lookup(table: Seq<PinFunction>, pin_bank: u8, signal: Signal) -> Option<u8>
    decreases table.len(),
{
    if table.len() == 0 {
        None
    } else if table[0].pin_bank == pin_bank && table[0].signal == signal {
        Some(table[0].af)
    } else {
        af_lookup(table.drop_first(), pin_bank, signal)
    }
}

/// The alternate function that routes `signal` to the pin `pin_bank`, if the
/// table has one; the first matching row counts.
pub fn alternate_function(table: &[PinFunction], pin_bank: u8, signal: Signal) -> (r: Option<u8>)
    ensures
        r == af_lookup(table@, pin_bank, signal),
{
    let mut i: usize = 0;
    assert(table@.skip(0) =~= table@);
    while i < table.len()
        invariant
            i <= table@.len(),
            af_lookup(table@, pin_bank, signal) == af_lookup(table@.skip(i as int), pin_bank, signal),
        decreases table@.len() - i,
    {
        let row = table[i];
        assert(table@.skip(i as int)[0] == row);
        assert(table@.skip(i as int).drop_first() =~= table@.skip(i + 1));
        if row.pin_bank == pin_bank && row.signal == signal {
            return Some(row.af);
        }
        i += 1;
    }
    assert(table@.skip(i as int).len() == 0);
    None
}

} // verus!
