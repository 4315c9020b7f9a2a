use blethrs::ethernet::{EthernetDevice, RDesRing, TDes, TDesRing, ETH_NUM_TD};

#[test]
fn fresh_tx_ring_yields_each_slot_once_then_none() {
    let mut ring = TDesRing::new(4);
    assert_eq!(ring.next(), Some(0));
    assert_eq!(ring.next(), Some(1));
    assert_eq!(ring.next(), Some(2));
    assert_eq!(ring.next(), Some(3));
    assert_eq!(ring.next(), None);
    assert_eq!(ring.next(), None);
}

#[test]
fn release_makes_one_more_slot_available_and_wraps() {
    let mut ring = TDesRing::new(4);
    for _ in 0..4 {
        ring.next().unwrap();
    }
    assert_eq!(ring.next(), None);
    // After four acquisitions the index has wrapped to slot 0; releasing it
    // makes exactly one more acquisition possible.
    ring.release(0);
    assert_eq!(ring.next(), Some(0));
    assert_eq!(ring.next(), None);
}

#[test]
fn tx_ring_of_any_capacity_is_exhausted_after_capacity_yields() {
    for n in [1usize, 2, 3, 7] {
        let mut ring = TDesRing::new(n);
        for expect in 0..n {
            assert_eq!(ring.next(), Some(expect));
        }
        assert_eq!(ring.next(), None);
    }
}

#[test]
fn fresh_rx_ring_is_empty_until_the_engine_delivers() {
    let mut ring = RDesRing::new(4);
    assert_eq!(ring.next(), None);
    ring.release(0);
    assert_eq!(ring.next(), Some(0));
    assert_eq!(ring.next(), None);
}

#[test]
fn descriptor_ownership_bit_drives_availability() {
    let mut d = TDes { tdes0: 0, tdes1: 0, tdes2: 0, tdes3: 0 };
    d.init(0);
    assert!(d.available());
    d.set_end_of_ring();
    assert!(d.available());
    d.set_length(1500);
    assert_eq!(d.tdes1, 1500);
    d.release();
    assert!(!d.available());
    d.reclaim();
    assert!(d.available());
}

#[test]
fn init_wires_descriptors_and_marks_the_ring_end() {
    let ring = TDesRing::new(4);
    for i in 0..4 {
        assert_eq!(ring.td[i].tdes2, i as u32);
        assert_eq!(ring.td[i].tdes3, 0);
    }
    for i in 0..3 {
        assert_eq!(ring.td[i].tdes0, 0x3000_0000);
    }
    assert_eq!(ring.td[3].tdes0, 0x3000_0000 | (1 << 21));

    let rring = RDesRing::new(4);
    for i in 0..4 {
        assert_eq!(rring.rd[i].rdes0, 1 << 31);
        assert_eq!(rring.rd[i].rdes2, i as u32);
        assert_eq!(rring.rd[i].rdes3, 0);
    }
    for i in 0..3 {
        assert_eq!(rring.rd[i].rdes1, 1536);
    }
    assert_eq!(rring.rd[3].rdes1, 1536 | (1 << 15));
}

#[test]
fn ring_buffers_are_full_sized_and_paired() {
    let ring = TDesRing::new(2);
    assert_eq!(ring.buf(0).len(), 1536);
    assert_eq!(ring.buf(1).len(), 1536);
    let rring = RDesRing::new(2);
    assert_eq!(rring.buf(0).len(), 1536);
}

#[test]
fn device_reports_ring_availability() {
    let mut dev = EthernetDevice::new();
    // Fresh transmit ring: a token comes back. Fresh receive ring: nothing
    // has been delivered yet.
    assert!(dev.transmit().is_some());
    assert!(dev.receive().is_none());
    for _ in 0..ETH_NUM_TD {
        dev.tdring.next().unwrap();
    }
    assert!(dev.transmit().is_none());
    dev.rdring.release(0);
    assert!(dev.receive().is_none());
    dev.tdring.release(0);
    assert!(dev.receive().is_some());
}

#[test]
fn link_comes_up_only_with_all_status_bits_right() {
    let mut dev = EthernetDevice::new();
    let good_bsr = 0x0004 | 0x0020;
    let good_bcr = 0x1000;
    let good_lpa = 0x0100;
    assert!(dev.link_established(good_bsr, good_bcr, good_lpa));
    assert!(dev.mac_100mbps && dev.mac_full_duplex);
    // No autonegotiation.
    assert!(!dev.phy_poll_link(good_bsr, 0, good_lpa));
    // Link down.
    assert!(!dev.phy_poll_link(0x0020, good_bcr, good_lpa));
    // Remote fault.
    assert!(!dev.phy_poll_link(good_bsr | 0x0010, good_bcr, good_lpa));
    // Autonegotiation incomplete.
    assert!(!dev.phy_poll_link(0x0004, good_bcr, good_lpa));
    // Partner cannot do 100Mb full duplex.
    assert!(!dev.phy_poll_link(good_bsr, good_bcr, 0));
}

#[test]
fn resume_clears_the_suspended_flags() {
    let mut dev = EthernetDevice::new();
    dev.tx_suspended = true;
    dev.rx_suspended = true;
    dev.resume_tx_dma();
    assert!(!dev.tx_suspended && dev.rx_suspended);
    dev.resume_rx_dma();
    assert!(!dev.rx_suspended);
}
