use blethrs::link::{boot_frame, build_config_record, check_response, erase_frame, info_frame,
    pad_image, read_frame, read_order_chunks, should_retry_connect, verify_segment, write_frame,
    write_order_chunks, Error};

#[test]
fn check_response_splits_status_and_payload() {
    assert_eq!(check_response(&vec![]), Err(Error::InvalidResponse));
    assert_eq!(check_response(&vec![0, 0, 0]), Err(Error::InvalidResponse));
    assert_eq!(check_response(&vec![0, 0, 0, 0, 7, 8]), Ok(vec![7, 8]));
    assert_eq!(
        check_response(&vec![2, 0, 0, 0]),
        Err(Error::Bootloader(blethrs::Error::LengthNotMultiple4))
    );
    assert_eq!(
        check_response(&vec![9, 0, 0, 0, 1]),
        Err(Error::Bootloader(blethrs::Error::InternalError))
    );
    assert_eq!(check_response(&vec![10, 0, 0, 0]), Err(Error::InvalidResponse));
}

#[test]
fn frames_carry_the_wire_layout() {
    assert_eq!(info_frame(), vec![0, 0, 0, 0]);
    assert_eq!(boot_frame(), vec![4, 0, 0, 0]);
    let f = read_frame(0x0801_0000, 8);
    assert_eq!(f, vec![1, 0, 0, 0, 0x00, 0x00, 0x01, 0x08, 8, 0, 0, 0]);
    let f = erase_frame(0x0800_C000, 24);
    assert_eq!(f, vec![2, 0, 0, 0, 0x00, 0xC0, 0x00, 0x08, 24, 0, 0, 0]);
    let f = write_frame(0x0801_0000, &vec![0xAB, 0xCD]);
    assert_eq!(f, vec![3, 0, 0, 0, 0x00, 0x00, 0x01, 0x08, 2, 0, 0, 0, 0xAB, 0xCD]);
}

#[test]
fn padding_fills_to_a_word_boundary_with_ff() {
    let mut data = vec![1, 2, 3, 4, 5];
    pad_image(&mut data);
    assert_eq!(data, vec![1, 2, 3, 4, 5, 0xFF, 0xFF, 0xFF]);
    let mut exact = vec![1, 2, 3, 4];
    pad_image(&mut exact);
    assert_eq!(exact, vec![1, 2, 3, 4]);
}

#[test]
fn chunks_are_written_in_strictly_descending_address_order() {
    let base = 0x0801_0000u32;
    let chunks = write_order_chunks(base, 12, 4);
    assert_eq!(chunks.len(), 3);
    assert_eq!(
        chunks.iter().map(|c| c.addr).collect::<Vec<_>>(),
        vec![base + 8, base + 4, base]
    );
    for w in chunks.windows(2) {
        assert!(w[0].addr > w[1].addr);
    }
    // The chunk holding the reset vector (the lowest address) is last.
    assert_eq!(chunks.last().unwrap().addr, base);
    assert_eq!(chunks.last().unwrap().start, 0);
}

#[test]
fn a_short_final_image_chunk_is_written_first() {
    let base = 0x0801_0000u32;
    let chunks = write_order_chunks(base, 10, 4);
    assert_eq!(chunks.len(), 3);
    assert_eq!(chunks[0].start, 8);
    assert_eq!(chunks[0].end, 10);
    assert_eq!(chunks[1].end - chunks[1].start, 4);
    assert_eq!(chunks[2].end - chunks[2].start, 4);
}

#[test]
fn readback_walks_chunks_in_ascending_order() {
    let base = 0x0801_0000u32;
    let chunks = read_order_chunks(base, 12, 4);
    assert_eq!(
        chunks.iter().map(|c| c.addr).collect::<Vec<_>>(),
        vec![base, base + 4, base + 8]
    );
    assert_eq!(chunks[0].start, 0);
    assert_eq!(chunks[2].end, 12);
    assert!(write_order_chunks(base, 0, 4).is_empty());
}

#[test]
fn verify_segment_pinpoints_the_first_differing_byte() {
    let wrote = vec![1, 2, 3, 4];
    assert_eq!(verify_segment(0x0801_0000, &wrote, &vec![1, 2, 3, 4]), Ok(()));
    // Readback may be longer than what was written; the tail is ignored.
    assert_eq!(verify_segment(0x0801_0000, &wrote, &vec![1, 2, 3, 4, 9, 9]), Ok(()));
    assert_eq!(
        verify_segment(0x0801_0000, &wrote, &vec![1, 2, 9, 8]),
        Err(Error::ReadMismatch { flash_addr: 0x0801_0002, wrote: 3, read: 9 })
    );
}

#[test]
fn connect_is_retried_only_on_refusal_with_attempts_left() {
    assert!(should_retry_connect(true, 3));
    assert!(!should_retry_connect(true, 0));
    assert!(!should_retry_connect(false, 3));
}

#[test]
fn config_record_checksum_matches_an_independent_crc() {
    let mac = [1u8, 2, 3, 4, 5, 6];
    let ip = [10u8, 1, 1, 10];
    let gw = [10u8, 1, 1, 1];
    let record = build_config_record(&mac, &ip, &gw, 24);
    assert_eq!(record.len(), 24);
    assert_eq!(&record[0..4], &0x6779_7870u32.to_le_bytes());
    assert_eq!(&record[4..10], &mac);
    assert_eq!(&record[10..14], &ip);
    assert_eq!(&record[14..18], &gw);
    assert_eq!(record[18], 24);
    assert_eq!(record[19], 0);

    // Recompute the checksum independently: each 32-bit word of the first
    // 20 bytes is bit-reversed and fed to a CRC-32 with polynomial
    // 0x04C11DB7 and all-ones initial value.
    let mut digest = crc::crc32::Digest::new_with_initial(0x04C1_1DB7, 0xFFFF_FFFF);
    for word in record[0..20].chunks(4) {
        let w = u32::from_le_bytes(word.try_into().unwrap());
        crc::crc32::Hasher32::write(&mut digest, &w.reverse_bits().to_le_bytes());
    }
    let sum = crc::crc32::Hasher32::sum32(&digest);
    assert_eq!(&record[20..24], &sum.to_le_bytes());
}

#[test]
fn config_record_with_other_identities_still_checks_out() {
    let record = build_config_record(
        &[0x00, 0x00, 0xAB, 0xCD, 0x00, 0x01],
        &[10, 101, 0, 1],
        &[10, 101, 0, 0],
        16,
    );
    let mut digest = crc::crc32::Digest::new_with_initial(0x04C1_1DB7, 0xFFFF_FFFF);
    for word in record[0..20].chunks(4) {
        let w = u32::from_le_bytes(word.try_into().unwrap());
        crc::crc32::Hasher32::write(&mut digest, &w.reverse_bits().to_le_bytes());
    }
    assert_eq!(&record[20..24], &crc::crc32::Hasher32::sum32(&digest).to_le_bytes());
}
