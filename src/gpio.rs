//! Digital pin model: levels, pulls, banks and type-erased pins.
use vstd::prelude::*;

verus! {

/// A digital input or output level.
#[derive(Debug, PartialEq, Eq, Structural)]
pub enum Level {
    Low,
    High,
}

/// A pull setting for an input.
#[derive(Debug, PartialEq, Eq, Structural)]
pub enum Pull {
    Floating,
    Up,
    Down,
}

/// A GPIO bank with up to 32 pins.
#[derive(Debug, PartialEq, Eq, Structural, Clone, Copy)]
pub enum Bank {
    Bank0,
    Qspi,
}

/// Number of a bank, as it is packed into a pin identifier.
pub open spec fn bank_index(b: Bank) -> nat {
    match b {
        Bank::Bank0 => 0,
        Bank::Qspi => 1,
    }
}

/// A pin of any bank, identified by its packed bank/pin number.
#[derive(Debug, Clone, Copy)]
pub struct AnyPin {
    pin_bank: u8,
}

impl AnyPin {
    pub closed spec fn spec_pin_bank(&self) -> u8 {
        self.pin_bank
    }

    /// The pin `pin` of bank `bank`.
    pub fn new(bank: Bank, pin: u8) -> (r: AnyPin)
        requires
            pin < 32,
        ensures
            r.spec_pin_bank() == 32 * bank_index(bank) + pin,
    {
        let b: u8 = match bank {
            Bank::Bank0 => 0,
            Bank::Qspi => 1,
        };
        AnyPin { pin_bank: b * 32 + pin }
    }

    /// The packed bank/pin identifier.
    pub fn pin_bank(&self) -> (r: u8)
        ensures
            r == self.spec_pin_bank(),
    {
        self.pin_bank
    }

    /// The pin number within its bank.
    pub fn pin(&self) -> (r: u8)
        ensures
            r == self.spec_pin_bank() % 32,
    {
        let pb = self.pin_bank;
        assert(pb & 0x1f == pb % 32) by (bit_vector);
        pb & 0x1f
    }

    /// The bank the pin belongs to.
    pub fn bank(&self) -> (r: Bank)
        ensures
            r == (if (self.spec_pin_bank() / 32) % 2 == 0 { Bank::Bank0 } else { Bank::Qspi }),
    {
        let pb = self.pin_bank;
        assert((pb & 0x20 == 0) == ((pb / 32) % 2 == 0)) by (bit_vector);
        if pb & 0x20 == 0 {
            Bank::Bank0
        } else {
            Bank::Qspi
        }
    }
}

/// A pin built from a bank and a number gives that bank and number back.
pub proof fn lemma_pin_round_trip(bank: Bank, pin: u8, p: AnyPin)
    requires
        pin < 32,
        p.spec_pin_bank() == 32 * bank_index(bank) + pin,
    ensures
        p.spec_pin_bank() % 32 == pin,
        (if (p.spec_pin_bank() / 32) % 2 == 0 { Bank::Bank0 } else { Bank::Qspi }) == bank,
{
}

/// Placeholder for an optional pin that is not connected.
#[derive(Debug, Clone, Copy)]
pub struct NoPin;

} // verus!
