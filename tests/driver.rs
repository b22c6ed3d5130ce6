use eth_driver::eth::{mac_addr_high, mac_addr_low, Ethernet, LinkState, MTU};
use eth_driver::gpio::{AnyPin, Bank};
use eth_driver::mdio::{ClockRange, ConfigError};
use eth_driver::sequence::{teardown_steps, InitStep, TeardownStep};
use eth_driver::tx::TxError;
use eth_driver::waker::WakerSlot;

fn pins() -> [AnyPin; 9] {
    [
        AnyPin::new(Bank::Bank0, 1),
        AnyPin::new(Bank::Bank0, 2),
        AnyPin::new(Bank::Bank0, 7),
        AnyPin::new(Bank::Bank0, 4),
        AnyPin::new(Bank::Bank0, 5),
        AnyPin::new(Bank::Qspi, 11),
        AnyPin::new(Bank::Qspi, 12),
        AnyPin::new(Bank::Qspi, 13),
        AnyPin::new(Bank::Qspi, 14),
    ]
}

const MAC: [u8; 6] = [0x00, 0x80, 0xe1, 0x11, 0x22, 0x33];

#[test]
fn new_rejects_slow_and_fast_clocks() {
    let slow: Result<Ethernet<u32, 4, 4>, _> = Ethernet::new(pins(), MAC, 0, 24_000_000);
    assert_eq!(slow.err(), Some(ConfigError::HclkTooLow));
    let fast: Result<Ethernet<u32, 4, 4>, _> = Ethernet::new(pins(), MAC, 0, 217_000_000);
    assert_eq!(fast.err(), Some(ConfigError::HclkTooHigh));
}

#[test]
fn new_keeps_settings() {
    let eth: Ethernet<u32, 4, 2> = Ethernet::new(pins(), MAC, 3, 168_000_000).ok().unwrap();
    assert_eq!(eth.ethernet_address(), MAC);
    assert_eq!(eth.station().phy_addr, 3);
    assert_eq!(eth.station().clock, ClockRange::Div102);
    assert!(eth.is_transmit_ready());
    let caps = eth.capabilities();
    assert_eq!(caps.max_transmission_unit, MTU);
    assert_eq!(caps.max_transmission_unit, 1514);
    assert_eq!(caps.max_burst_size, Some(2));
    let back = eth.release();
    assert_eq!(back[2].pin(), 7);
    assert_eq!(back[8].bank(), Bank::Qspi);
}

#[test]
fn driver_transmit_until_full_then_interrupt_frees() {
    let mut eth: Ethernet<u32, 2, 2> = Ethernet::new(pins(), MAC, 0, 100_000_000).ok().unwrap();
    eth.transmit(vec![1, 2, 3]);
    assert!(eth.is_transmit_ready());
    eth.transmit(vec![4]);
    assert!(!eth.is_transmit_ready());
    // Dropped: no descriptor free.
    eth.transmit(vec![5]);
    assert!(eth.inner_mut().ring.tx.dma_complete(false));
    assert!(eth.inner_mut().ring.tx.dma_complete(false));
    assert!(!eth.inner_mut().ring.tx.dma_complete(false));
    let s = eth.on_interrupt();
    assert_eq!(s.tx, Ok(()));
    assert!(eth.is_transmit_ready());
    assert_eq!(eth.inner_mut().ring.tx.free_count(), 2);
}

#[test]
fn driver_receive_in_order() {
    let mut eth: Ethernet<u32, 2, 4> = Ethernet::new(pins(), MAC, 0, 50_000_000).ok().unwrap();
    assert_eq!(eth.receive(), None);
    assert!(eth.inner_mut().ring.rx.dma_receive(vec![0xaa], false));
    assert!(eth.inner_mut().ring.rx.dma_receive(vec![0xbb, 0xcc], false));
    let s = eth.on_interrupt();
    assert!(s.rx_ready);
    assert_eq!(eth.receive(), Some(vec![0xaa]));
    assert_eq!(eth.receive(), Some(vec![0xbb, 0xcc]));
    assert_eq!(eth.receive(), None);
}

#[test]
fn interrupt_wakes_latest_registration_once() {
    let mut eth: Ethernet<u32, 2, 2> = Ethernet::new(pins(), MAC, 0, 60_000_000).ok().unwrap();
    eth.register_waker(1);
    eth.register_waker(2);
    let s = eth.on_interrupt();
    assert_eq!(s.wake, Some(2));
    assert!(!s.rx_ready);
    assert_eq!(s.tx, Ok(()));
    let s = eth.on_interrupt();
    assert_eq!(s.wake, None);
}

#[test]
fn interrupt_reports_and_counts_transmit_error() {
    let mut eth: Ethernet<u32, 2, 2> = Ethernet::new(pins(), MAC, 0, 60_000_000).ok().unwrap();
    eth.transmit(vec![1]);
    assert!(eth.inner_mut().ring.tx.dma_complete(true));
    let s = eth.on_interrupt();
    assert_eq!(s.tx, Err(TxError::TransmitFailed));
    assert_eq!(eth.inner_mut().tx_errors, 1);
    assert!(eth.is_transmit_ready());
}

#[test]
fn link_state_follows_poll() {
    assert_eq!(LinkState::from_poll(true), LinkState::Up);
    assert_eq!(LinkState::from_poll(false), LinkState::Down);
}

#[test]
fn mac_address_register_words() {
    assert_eq!(mac_addr_high(&MAC), 0x3322);
    assert_eq!(mac_addr_low(&MAC), 0x11e1_8000);
    assert_eq!(mac_addr_low(&[0xff, 0xff, 0xff, 0xff, 0, 0]), 0xffff_ffff);
}

#[test]
fn waker_slot_keeps_last() {
    let mut w: WakerSlot<&str> = WakerSlot::new();
    assert!(!w.is_registered());
    w.register("a");
    w.register("b");
    assert!(w.is_registered());
    assert_eq!(w.take(), Some("b"));
    assert_eq!(w.take(), None);
}

#[test]
fn bring_up_and_teardown_order() {
    let eth: Ethernet<u32, 2, 2> = Ethernet::new(pins(), MAC, 0, 60_000_000).ok().unwrap();
    let steps = eth.bring_up_steps();
    assert_eq!(steps.len(), 13);
    assert_eq!(steps[0], InitStep::EnableClocks);
    assert_eq!(steps[4], InitStep::SetMacAddress { high: 0x3322, low: 0x11e1_8000 });
    assert_eq!(steps[6], InitStep::InitRings);
    assert_eq!(steps[7], InitStep::Fence);
    assert_eq!(steps[10], InitStep::EnableInterrupts);
    assert_eq!(steps[12], InitStep::InitPhy);
    assert_eq!(
        teardown_steps(),
        vec![TeardownStep::StopTxDma, TeardownStep::DisableMac, TeardownStep::StopRxDma, TeardownStep::ReleasePins]
    );
}
