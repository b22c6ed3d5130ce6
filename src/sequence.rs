//! The order in which the MAC and DMA engines are brought up and shut down.
//! Each step is one register-level action that the hardware layer performs;
//! a step runs only after the one before it has completed.
use vstd::prelude::*;

verus! {

/// One action of bringing the driver up.
#[derive(Debug, Clone, Copy, PartialEq, Eq, Structural)]
pub enum InitStep {
    /// Enable the peripheral clocks and select the reduced pin-count
    /// interface, with interrupts masked.
    EnableClocks,
    /// Route each owned pin to the peripheral at high drive strength.
    ConfigurePins,
    /// Reset the DMA engine and wait until the reset bit clears.
    ResetDma,
    /// Inter-frame gap, full duplex, fast speed, padding and CRC stripping.
    ConfigureMac,
    /// Write the high address register, then the low one: the low write
    /// latches both into the MAC.
    SetMacAddress { high: u16, low: u32 },
    /// Store-and-forward both ways and the burst length.
    ConfigureDma,
    /// Put the descriptor rings in their initial state.
    InitRings,
    /// Make the ring writes visible to the engine.
    Fence,
    /// Enable the MAC transmitter and receiver.
    EnableMac,
    /// Flush the transmit queue and start both DMA channels.
    StartDma,
    /// Unmask the transmit, receive and summary interrupts.
    EnableInterrupts,
    /// Reset the PHY over the management bus.
    ResetPhy,
    /// Initialise the PHY over the management bus.
    InitPhy,
}

/// One action of shutting the driver down. Transmissions in flight are not
/// waited for.
#[derive(Debug, Clone, Copy, PartialEq, Eq, Structural)]
pub enum TeardownStep {
    StopTxDma,
    DisableMac,
    StopRxDma,
    /// Return every owned pin to analog mode at low drive strength.
    ReleasePins,
}

/// Bring-up order for a station whose address registers take `high` and `low`.
pub open spec fn spec_init_steps(high: u16, low: u32) -> Seq<InitStep> {
    seq![
        InitStep::EnableClocks,
        InitStep::ConfigurePins,
        InitStep::ResetDma,
        InitStep::ConfigureMac,
        InitStep::SetMacAddress { high, low },
        InitStep::ConfigureDma,
        InitStep::InitRings,
        InitStep::Fence,
        InitStep::EnableMac,
        InitStep::StartDma,
        InitStep::EnableInterrupts,
        InitStep::ResetPhy,
        InitStep::InitPhy,
    ]
}

pub open spec fn spec_teardown_steps() -> Seq<TeardownStep> {
    seq![TeardownStep::StopTxDma, TeardownStep::DisableMac, TeardownStep::StopRxDma, TeardownStep::ReleasePins]
}

/// The bring-up steps, in order.
pub fn init_steps(high: u16, low: u32) -> (r: Vec<InitStep>)
    ensures
        r@ == spec_init_steps(high, low),
{
    let r = vec![
        InitStep::EnableClocks,
        InitStep::ConfigurePins,
        InitStep::ResetDma,
        InitStep::ConfigureMac,
        InitStep::SetMacAddress { high, low },
        InitStep::ConfigureDma,
        InitStep::InitRings,
        InitStep::Fence,
        InitStep::EnableMac,
        InitStep::StartDma,
        InitStep::EnableInterrupts,
        InitStep::ResetPhy,
        InitStep::InitPhy,
    ];
    assert(r@ =~= spec_init_steps(high, low));
    r
}

/// The shutdown steps, in order.
pub fn teardown_steps() -> (r: Vec<TeardownStep>)
    ensures
        r@ == spec_teardown_steps(),
{
    let r = vec![TeardownStep::StopTxDma, TeardownStep::DisableMac, TeardownStep::StopRxDma, TeardownStep::ReleasePins];
    assert(r@ =~= spec_teardown_steps());
    r
}

/// The rings are set up and published before either engine starts, and
/// interrupts are unmasked only after both engines run; the PHY is reset
/// before it is initialised, both after the MAC is live. On shutdown the
/// transmit engine stops before the MAC, the receive engine after it, and
/// the pins go last.
pub proof fn lemma_step_order(high: u16, low: u32)
    ensures
        ({
            let s = spec_init_steps(high, low);
            &&& s[6] == InitStep::InitRings && s[7] == InitStep::Fence
            &&& s[8] == InitStep::EnableMac && s[9] == InitStep::StartDma
            &&& s[10] == InitStep::EnableInterrupts
            &&& s[11] == InitStep::ResetPhy && s[12] == InitStep::InitPhy
            &&& forall|i: int| 0 <= i < s.len() && s[i] == InitStep::EnableInterrupts ==> i == 10
            &&& forall|i: int| 0 <= i < s.len() && s[i] == InitStep::InitRings ==> i == 6
            &&& forall|i: int| 0 <= i < s.len() && (s[i] == InitStep::StartDma || s[i] == InitStep::EnableMac) ==> 8 <= i <= 9
        }),
        spec_teardown_steps().len() == 4,
        spec_teardown_steps()[0] == TeardownStep::StopTxDma,
        spec_teardown_steps()[3] == TeardownStep::ReleasePins,
{
}

} // verus!
