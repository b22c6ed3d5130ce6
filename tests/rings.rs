use eth_driver::ring::DescriptorRing;
use eth_driver::rx::RxRing;
use eth_driver::tx::{QueueFull, TxError, TxRing};

#[test]
fn tx_ready_until_capacity_reached() {
    let mut tx: TxRing<4> = TxRing::new();
    for i in 0..4u8 {
        assert!(tx.available());
        assert_eq!(tx.transmit(vec![i]), Ok(()));
    }
    assert!(!tx.available());
    assert_eq!(tx.free_count(), 0);
}

#[test]
fn tx_capacity_two_scenario() {
    let mut tx: TxRing<2> = TxRing::new();
    assert_eq!(tx.transmit(vec![1]), Ok(()));
    assert!(tx.available());
    assert_eq!(tx.transmit(vec![2]), Ok(()));
    assert!(!tx.available());
    assert_eq!(tx.transmit(vec![3]), Err(QueueFull));
    assert!(tx.dma_complete(false));
    assert_eq!(tx.on_interrupt(), Ok(()));
    assert!(tx.available());
    assert_eq!(tx.transmit(vec![3]), Ok(()));
    assert!(!tx.available());
}

#[test]
fn tx_completions_return_descriptors() {
    let mut tx: TxRing<4> = TxRing::new();
    for i in 0..3u8 {
        tx.transmit(vec![i]).unwrap();
    }
    assert_eq!(tx.free_count(), 1);
    assert!(tx.dma_complete(false));
    assert!(tx.dma_complete(false));
    // Finished but not yet reclaimed: still counted in flight.
    assert_eq!(tx.free_count(), 1);
    assert_eq!(tx.on_interrupt(), Ok(()));
    assert_eq!(tx.free_count(), 3);
}

#[test]
fn tx_completions_saturate_at_capacity() {
    let mut tx: TxRing<4> = TxRing::new();
    tx.transmit(vec![7]).unwrap();
    tx.transmit(vec![8]).unwrap();
    assert!(tx.dma_complete(false));
    assert!(tx.dma_complete(false));
    assert!(!tx.dma_complete(false));
    assert!(!tx.dma_complete(false));
    assert_eq!(tx.on_interrupt(), Ok(()));
    assert_eq!(tx.free_count(), 4);
    assert_eq!(tx.on_interrupt(), Ok(()));
    assert_eq!(tx.free_count(), 4);
}

#[test]
fn tx_packets_fill_slots_in_order_and_leave_in_order() {
    let mut tx: TxRing<4> = TxRing::new();
    tx.transmit(vec![0x11, 0x12]).unwrap();
    tx.transmit(vec![0x21]).unwrap();
    tx.transmit(vec![0x31, 0x32, 0x33]).unwrap();
    assert_eq!(tx.slot_packet(0), &vec![0x11, 0x12]);
    assert_eq!(tx.slot_packet(1), &vec![0x21]);
    assert_eq!(tx.slot_packet(2), &vec![0x31, 0x32, 0x33]);
    assert!(tx.slot_packet(3).is_empty());
    assert!(tx.dma_complete(false));
    tx.on_interrupt().unwrap();
    assert!(tx.slot_packet(0).is_empty());
    assert_eq!(tx.slot_packet(1), &vec![0x21]);
    assert!(tx.dma_complete(false));
    tx.on_interrupt().unwrap();
    assert!(tx.slot_packet(1).is_empty());
    assert_eq!(tx.slot_packet(2), &vec![0x31, 0x32, 0x33]);
}

#[test]
fn tx_ring_wraps_around() {
    let mut tx: TxRing<2> = TxRing::new();
    for round in 0..5u8 {
        tx.transmit(vec![round]).unwrap();
        assert_eq!(tx.slot_packet((round % 2) as usize), &vec![round]);
        assert!(tx.dma_complete(false));
        tx.on_interrupt().unwrap();
        assert_eq!(tx.free_count(), 2);
    }
}

#[test]
fn tx_error_status_is_reported_on_reclaim() {
    let mut tx: TxRing<4> = TxRing::new();
    tx.transmit(vec![1]).unwrap();
    tx.transmit(vec![2]).unwrap();
    assert!(tx.dma_complete(false));
    assert!(tx.dma_complete(true));
    assert_eq!(tx.on_interrupt(), Err(TxError::TransmitFailed));
    // The failed descriptor is reclaimed all the same.
    assert_eq!(tx.free_count(), 4);
    assert_eq!(tx.on_interrupt(), Ok(()));
}

#[test]
fn tx_capacity_is_the_const_parameter() {
    let tx: TxRing<3> = TxRing::new();
    assert_eq!(tx.capacity(), 3);
    assert_eq!(tx.free_count(), 3);
}

#[test]
fn rx_pops_frames_in_written_order() {
    let mut rx: RxRing<4> = RxRing::new();
    assert!(rx.dma_receive(vec![1, 1], false));
    assert!(rx.dma_receive(vec![2], false));
    assert!(rx.dma_receive(vec![3, 3, 3], false));
    assert_eq!(rx.pop_packet(), Some(vec![1, 1]));
    assert_eq!(rx.pop_packet(), Some(vec![2]));
    assert_eq!(rx.pop_packet(), Some(vec![3, 3, 3]));
    assert_eq!(rx.pop_packet(), None);
}

#[test]
fn rx_empty_ring_gives_nothing() {
    let mut rx: RxRing<2> = RxRing::new();
    assert!(!rx.on_interrupt());
    assert_eq!(rx.pop_packet(), None);
    assert_eq!(rx.capacity(), 2);
}

#[test]
fn rx_damaged_frame_is_dropped_and_recycled() {
    let mut rx: RxRing<2> = RxRing::new();
    assert!(rx.dma_receive(vec![9, 9], true));
    assert!(rx.dma_receive(vec![5], false));
    assert!(rx.on_interrupt());
    assert_eq!(rx.pop_packet(), None);
    assert_eq!(rx.pop_packet(), Some(vec![5]));
    assert!(!rx.on_interrupt());
    // Both descriptors are armed again.
    assert!(rx.dma_receive(vec![6], false));
    assert!(rx.dma_receive(vec![7], false));
}

#[test]
fn rx_full_ring_drops_new_frames() {
    let mut rx: RxRing<2> = RxRing::new();
    assert!(rx.dma_receive(vec![1], false));
    assert!(rx.dma_receive(vec![2], false));
    assert!(!rx.dma_receive(vec![3], false));
    assert_eq!(rx.pop_packet(), Some(vec![1]));
    assert!(rx.dma_receive(vec![4], false));
    assert_eq!(rx.pop_packet(), Some(vec![2]));
    assert_eq!(rx.pop_packet(), Some(vec![4]));
    assert_eq!(rx.pop_packet(), None);
}

#[test]
fn rx_descriptor_is_not_returned_twice() {
    let mut rx: RxRing<1> = RxRing::new();
    assert!(rx.dma_receive(vec![42], false));
    assert_eq!(rx.pop_packet(), Some(vec![42]));
    assert_eq!(rx.pop_packet(), None);
    assert!(rx.dma_receive(vec![43], false));
    assert_eq!(rx.pop_packet(), Some(vec![43]));
}

#[test]
fn ring_init_discards_traffic() {
    let mut ring: DescriptorRing<2, 3> = DescriptorRing::new();
    ring.tx.transmit(vec![1]).unwrap();
    ring.tx.transmit(vec![2]).unwrap();
    assert!(ring.rx.dma_receive(vec![3], false));
    assert!(!ring.tx.available());
    ring.init();
    assert!(ring.tx.available());
    assert_eq!(ring.tx.free_count(), 2);
    assert_eq!(ring.rx.pop_packet(), None);
    assert_eq!(ring.tx.capacity(), 2);
    assert_eq!(ring.rx.capacity(), 3);
}
