//! The Ethernet driver: rings, interrupt servicing, notification, station
//! management settings, pins and MAC address, composed behind the device
//! interface a network stack uses.
use vstd::prelude::*;
use crate::gpio::AnyPin;
use crate::mdio::{ClockRange, ConfigError, Station, clock_range_for};
use crate::ring::DescriptorRing;
use crate::sequence::{InitStep, init_steps, spec_init_steps};
use crate::rx::{RxState, rx_empty, rx_pop_packet, rx_pop_state};
use crate::tx::{TxError, TxState, tx_empty, tx_ready, tx_reclaim, tx_reclaim_failed, tx_transmit};
use crate::waker::WakerSlot;

verus! {

/// Largest frame the device carries, header included.
pub const MTU: usize = 1514;

/// What the device tells the network stack about itself.
#[derive(Debug, Clone, Copy, PartialEq, Eq, Structural)]
pub struct DeviceCapabilities {
    pub max_transmission_unit: usize,
    pub max_burst_size: Option<usize>,
}

/// Whether the PHY reports a link.
#[derive(Debug, Clone, Copy, PartialEq, Eq, Structural)]
pub enum LinkState {
    Up,
    Down,
}

impl LinkState {
    /// The link state for what the PHY's link poll answered.
    pub fn from_poll(link_up: bool) -> (r: LinkState)
        ensures
            r == (if link_up { LinkState::Up } else { LinkState::Down }),
    {
        if link_up {
            LinkState::Up
        } else {
            LinkState::Down
        }
    }
}

/// What servicing one interrupt did.
pub struct Serviced<W> {
    /// Result of reclaiming finished transmit descriptors.
    pub tx: Result<(), TxError>,
    /// Whether a received frame waits to be read.
    pub rx_ready: bool,
    /// The registered target, taken out of its slot, to be notified.
    pub wake: Option<W>,
}

/// The state shared between the driver's calls and its interrupt handler.
/// Both reach it only through `&mut`, so their accesses never interleave.
pub struct Inner<W, const TX: usize, const RX: usize> {
    pub ring: DescriptorRing<TX, RX>,
    pub waker: WakerSlot<W>,
    /// Transmit errors seen while reclaiming, saturating.
    pub tx_errors: u64,
}

impl<W, const TX: usize, const RX: usize> Inner<W, TX, RX> {
    pub open spec fn wf(&self) -> bool {
        self.ring.wf()
    }

    /// Fresh rings and an empty notification slot.
    pub fn new() -> (r: Self)
        requires
            TX > 0,
            RX > 0,
        ensures
            r.wf(),
            r.ring.tx@ == tx_empty(TX as nat),
            r.ring.rx@ == rx_empty(RX as nat),
            r.waker@ is None,
            r.tx_errors == 0,
    {
        Inner { ring: DescriptorRing::new(), waker: WakerSlot::new(), tx_errors: 0 }
    }

    /// Interrupt service: reclaims finished transmit descriptors, notes
    /// received frames and takes the registered target out to be notified.
    /// A transmit error is counted and reported; servicing goes on.
    pub fn on_interrupt(&mut self) -> (r: Serviced<W>)
        requires
            old(self).wf(),
        ensures
            final(self).wf(),
            final(self).ring.tx@ == tx_reclaim(old(self).ring.tx@),
            final(self).ring.rx@ == old(self).ring.rx@,
            r.tx is Err <==> tx_reclaim_failed(old(self).ring.tx@),
            r.rx_ready == (old(self).ring.rx@.frames.len() > 0),
            r.wake == old(self).waker@,
            final(self).waker@ is None,
            final(self).tx_errors == (if r.tx is Err && old(self).tx_errors < u64::MAX {
                old(self).tx_errors + 1
            } else {
                old(self).tx_errors as int
            }),
    {
        let tx = self.ring.tx.on_interrupt();
        if tx.is_err() && self.tx_errors < u64::MAX {
            self.tx_errors = self.tx_errors + 1;
        }
        let rx_ready = self.ring.rx.on_interrupt();
        let wake = self.waker.take();
        Serviced { tx, rx_ready, wake }
    }
}

/// The high address register: bytes 4 and 5, byte 4 lowest.
pub open spec fn spec_mac_high(mac: Seq<u8>) -> int {
    mac[4] + 256 * mac[5]
}

/// The low address register: bytes 0 to 3, byte 0 lowest.
pub open spec fn spec_mac_low(mac: Seq<u8>) -> int {
    mac[0] + 256 * mac[1] + 65536 * mac[2] + 16777216 * mac[3]
}

/// Value of the high MAC address register. It is written before the low
/// one, as writing the low one latches both into the MAC.
pub fn mac_addr_high(mac: &[u8; 6]) -> (r: u16)
    ensures
        r == spec_mac_high(mac@),
{
    let a = mac[4] as u16;
    let b = mac[5] as u16;
    assert(a | (b << 8) == a + 256 * b) by (bit_vector)
        requires a < 256, b < 256;
    a | (b << 8)
}

/// Value of the low MAC address register.
pub fn mac_addr_low(mac: &[u8; 6]) -> (r: u32)
    ensures
        r == spec_mac_low(mac@),
{
    let a = mac[0] as u32;
    let b = mac[1] as u32;
    let c = mac[2] as u32;
    let d = mac[3] as u32;
    assert(a | (b << 8) | (c << 16) | (d << 24) == a + 256 * b + 65536 * c + 16777216 * d) by (bit_vector)
        requires a < 256, b < 256, c < 256, d < 256;
    a | (b << 8) | (c << 16) | (d << 24)
}

/// The Ethernet driver. It owns its pins, the station settings for the PHY,
/// the MAC address and the state it shares with its interrupt handler.
pub struct Ethernet<W, const TX: usize, const RX: usize> {
    inner: Inner<W, TX, RX>,
    pins: [AnyPin; 9],
    station: Station,
    mac_addr: [u8; 6],
}

impl<W, const TX: usize, const RX: usize> Ethernet<W, TX, RX> {
    pub closed spec fn wf(&self) -> bool {
        self.inner.wf()
    }

    pub closed spec fn spec_inner(&self) -> Inner<W, TX, RX> {
        self.inner
    }

    pub closed spec fn spec_station(&self) -> Station {
        self.station
    }

    pub closed spec fn spec_mac_addr(&self) -> Seq<u8> {
        self.mac_addr@
    }

    pub closed spec fn spec_pins(&self) -> Seq<AnyPin> {
        self.pins@
    }

    /// The transmit ring's state.
    pub open spec fn tx_state(&self) -> TxState {
        self.spec_inner().ring.tx@
    }

    /// The receive ring's state.
    pub open spec fn rx_state(&self) -> RxState {
        self.spec_inner().ring.rx@
    }

    /// Takes the pins, the MAC address and the PHY's address; picks the
    /// management clock divider for a bus clock of `hclk_hz` Hz and sets up
    /// both rings. Fails when no divider keeps the management clock in range.
    pub fn new(pins: [AnyPin; 9], mac_addr: [u8; 6], phy_addr: u8, hclk_hz: u32) -> (r: Result<Self, ConfigError>)
        requires
            TX > 0,
            RX > 0,
        ensures
            r is Err <==> clock_range_for(hclk_hz as int / 1_000_000) is Err,
            r matches Err(e) ==> clock_range_for(hclk_hz as int / 1_000_000) == Err::<ClockRange, ConfigError>(e),
            r matches Ok(eth) ==> {
                &&& eth.wf()
                &&& clock_range_for(hclk_hz as int / 1_000_000) == Ok::<ClockRange, ConfigError>(eth.spec_station().clock)
                &&& eth.spec_station().phy_addr == phy_addr
                &&& eth.spec_mac_addr() == mac_addr@
                &&& eth.spec_pins() == pins@
                &&& eth.tx_state() == tx_empty(TX as nat)
                &&& eth.rx_state() == rx_empty(RX as nat)
                &&& eth.spec_inner().waker@ is None
                &&& eth.spec_inner().tx_errors == 0
            },
    {
        let clock = match ClockRange::from_hclk(hclk_hz) {
            Ok(c) => c,
            Err(e) => return Err(e),
        };
        let mut inner = Inner::new();
        inner.ring.init();
        Ok(Ethernet { inner, pins, station: Station { phy_addr, clock }, mac_addr })
    }

    /// Whether a transmit descriptor is free.
    pub fn is_transmit_ready(&self) -> (r: bool)
        requires
            self.wf(),
        ensures
            r == tx_ready(self.tx_state()),
    {
        self.inner.ring.tx.available()
    }

    /// Queues `pkt` for sending. The stack checks `is_transmit_ready` first;
    /// with no descriptor free the packet is dropped.
    pub fn transmit(&mut self, pkt: Vec<u8>)
        requires
            old(self).wf(),
        ensures
            final(self).wf(),
            final(self).tx_state() == tx_transmit(old(self).tx_state(), pkt@),
            final(self).rx_state() == old(self).rx_state(),
            final(self).spec_inner().waker@ == old(self).spec_inner().waker@,
    {
        let _ = self.inner.ring.tx.transmit(pkt);
    }

    /// The next received frame, if one is ready.
    pub fn receive(&mut self) -> (r: Option<Vec<u8>>)
        requires
            old(self).wf(),
        ensures
            final(self).wf(),
            final(self).rx_state() == rx_pop_state(old(self).rx_state()),
            final(self).tx_state() == old(self).tx_state(),
            final(self).spec_inner().waker@ == old(self).spec_inner().waker@,
            match r {
                Some(p) => rx_pop_packet(old(self).rx_state()) == Some(p@),
                None => rx_pop_packet(old(self).rx_state()) is None,
            },
    {
        self.inner.ring.rx.pop_packet()
    }

    /// Registers the target the next interrupt notifies, replacing any other.
    pub fn register_waker(&mut self, w: W)
        requires
            old(self).wf(),
        ensures
            final(self).wf(),
            final(self).spec_inner().waker@ == Some(w),
            final(self).tx_state() == old(self).tx_state(),
            final(self).rx_state() == old(self).rx_state(),
    {
        self.inner.waker.register(w);
    }

    /// Frame size and the most frames one burst may carry.
    pub fn capabilities(&self) -> (r: DeviceCapabilities)
        ensures
            r.max_transmission_unit == MTU,
            r.max_burst_size == Some(if TX < RX { TX } else { RX }),
    {
        let burst = if TX < RX { TX } else { RX };
        DeviceCapabilities { max_transmission_unit: MTU, max_burst_size: Some(burst) }
    }

    /// The station's MAC address.
    pub fn ethernet_address(&self) -> (r: [u8; 6])
        ensures
            r@ == self.spec_mac_addr(),
    {
        self.mac_addr
    }

    /// The pins the driver owns.
    pub fn pins(&self) -> (r: &[AnyPin; 9])
        ensures
            r@ == self.spec_pins(),
    {
        &self.pins
    }

    /// The address and clock divider for management transactions.
    pub fn station(&self) -> (r: Station)
        ensures
            r == self.spec_station(),
    {
        self.station
    }

    /// The register-level bring-up of this station, in order, with its MAC
    /// address split into the two address registers.
    pub fn bring_up_steps(&self) -> (r: Vec<InitStep>)
        ensures
            r@ == spec_init_steps(
                spec_mac_high(self.spec_mac_addr()) as u16,
                spec_mac_low(self.spec_mac_addr()) as u32,
            ),
    {
        let high = mac_addr_high(&self.mac_addr);
        let low = mac_addr_low(&self.mac_addr);
        init_steps(high, low)
    }

    /// Interrupt service; see `Inner::on_interrupt`.
    pub fn on_interrupt(&mut self) -> (r: Serviced<W>)
        requires
            old(self).wf(),
        ensures
            final(self).wf(),
            final(self).tx_state() == tx_reclaim(old(self).tx_state()),
            final(self).rx_state() == old(self).rx_state(),
            r.tx is Err <==> tx_reclaim_failed(old(self).tx_state()),
            r.rx_ready == (old(self).rx_state().frames.len() > 0),
            r.wake == old(self).spec_inner().waker@,
            final(self).spec_inner().waker@ is None,
    {
        self.inner.on_interrupt()
    }

    /// The shared state, for a simulated DMA engine to work on.
    pub fn inner_mut(&mut self) -> (r: &mut Inner<W, TX, RX>)
        ensures
            *r == old(self).spec_inner(),
            final(self).spec_inner() == *final(r),
            final(self).spec_station() == old(self).spec_station(),
            final(self).spec_mac_addr() == old(self).spec_mac_addr(),
            final(self).spec_pins() == old(self).spec_pins(),
    {
        &mut self.inner
    }

    /// Ends the driver and hands back its pins, to be returned to a quiescent
    /// state once the engines are stopped.
    pub fn release(self) -> (r: [AnyPin; 9])
        ensures
            r@ == self.spec_pins(),
    {
        self.pins
    }
}

} // verus!
