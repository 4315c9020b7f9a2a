use blethrs::flash::{check_address_valid, FlashBank, UserConfig, default_config, valid_user_code,
    FLASH_CONFIG, FLASH_USER, FLASH_END};
use blethrs::Error;

const USER: u32 = FLASH_USER;

#[test]
fn length_not_multiple_of_4_is_rejected() {
    for len in [1usize, 2, 3, 5, 7, 9, 1023] {
        assert_eq!(check_address_valid(USER, len), Err(Error::LengthNotMultiple4));
    }
    assert_eq!(check_address_valid(USER, 4), Ok(()));
}

#[test]
fn zero_length_is_rejected_and_erases_nothing() {
    assert_eq!(check_address_valid(USER, 0), Err(Error::LengthNotMultiple4));
    let mut bank = FlashBank::new();
    bank.write(USER, 4, &vec![1, 2, 3, 4]).unwrap();
    assert_eq!(bank.erase(USER, 0), Err(Error::LengthNotMultiple4));
    assert_eq!(bank.read(USER, 4).unwrap(), vec![1, 2, 3, 4]);
}

#[test]
fn length_too_long_is_rejected() {
    assert_eq!(check_address_valid(USER, 1028), Err(Error::LengthTooLong));
    assert_eq!(check_address_valid(USER, 2048), Err(Error::LengthTooLong));
    assert_eq!(check_address_valid(USER, 1024), Ok(()));
}

#[test]
fn out_of_range_addresses_are_rejected() {
    // Below the configuration sector: the bootloader's own flash.
    assert_eq!(check_address_valid(0x0800_0000, 4), Err(Error::InvalidAddress));
    assert_eq!(check_address_valid(FLASH_CONFIG - 4, 4), Err(Error::InvalidAddress));
    // Beyond the end of flash.
    assert_eq!(check_address_valid(FLASH_END + 1, 4), Err(Error::InvalidAddress));
    assert_eq!(check_address_valid(FLASH_END - 7, 8), Ok(()));
    assert_eq!(check_address_valid(FLASH_END - 3, 8), Err(Error::InvalidAddress));
    // Length priority comes first.
    assert_eq!(check_address_valid(0x0800_0000, 3), Err(Error::LengthNotMultiple4));
}

#[test]
fn write_then_read_round_trips() {
    let mut bank = FlashBank::new();
    let data: Vec<u8> = (0u8..16).collect();
    bank.write(USER, 16, &data).unwrap();
    let back = bank.read(USER, 16).unwrap();
    assert_eq!(back, data);
}

#[test]
fn write_rejects_wrong_payload_length() {
    let mut bank = FlashBank::new();
    let data = vec![0xAAu8; 4];
    assert_eq!(bank.write(USER, 8, &data), Err(Error::DataLengthIncorrect));
    // Nothing was programmed.
    assert_eq!(bank.read(USER, 8).unwrap(), vec![0xFFu8; 8]);
}

#[test]
fn erase_covers_exactly_the_touched_sectors() {
    let mut bank = FlashBank::new();
    // Plant markers in sector 3 (starts at FLASH_CONFIG) and sector 4
    // (starts at FLASH_USER).
    bank.write(FLASH_CONFIG, 4, &vec![1, 2, 3, 4]).unwrap();
    bank.write(USER, 4, &vec![5, 6, 7, 8]).unwrap();
    // Erase a small range inside sector 3 only.
    bank.erase(FLASH_CONFIG + 0x100, 16).unwrap();
    assert_eq!(bank.read(FLASH_CONFIG, 4).unwrap(), vec![0xFF; 4]);
    assert_eq!(bank.read(USER, 4).unwrap(), vec![5, 6, 7, 8]);
}

#[test]
fn erase_ending_on_a_boundary_spares_the_next_sector() {
    let mut bank = FlashBank::new();
    bank.write(USER, 4, &vec![5, 6, 7, 8]).unwrap();
    // [USER - 1024, USER) lies wholly inside sector 3; sector 4 must keep
    // its bytes.
    bank.erase(USER - 1024, 1024).unwrap();
    assert_eq!(bank.read(USER, 4).unwrap(), vec![5, 6, 7, 8]);
    assert_eq!(bank.read(USER - 1024, 4).unwrap(), vec![0xFF; 4]);
}

#[test]
fn erase_spanning_a_boundary_covers_both_sectors() {
    let mut bank = FlashBank::new();
    bank.write(FLASH_CONFIG, 4, &vec![1, 2, 3, 4]).unwrap();
    bank.write(USER, 4, &vec![5, 6, 7, 8]).unwrap();
    // Sector 3 ends at FLASH_USER - 1; this range touches both sectors.
    bank.erase(USER - 4, 8).unwrap();
    assert_eq!(bank.read(FLASH_CONFIG, 4).unwrap(), vec![0xFF; 4]);
    assert_eq!(bank.read(USER, 4).unwrap(), vec![0xFF; 4]);
}

#[test]
fn erase_rejects_what_validation_rejects() {
    let mut bank = FlashBank::new();
    assert_eq!(bank.erase(USER, 6), Err(Error::LengthNotMultiple4));
    assert_eq!(bank.erase(USER, 2048), Err(Error::LengthTooLong));
    assert_eq!(bank.erase(0x0800_0000, 8), Err(Error::InvalidAddress));
}

#[test]
fn get_returns_default_when_flash_is_blank() {
    let bank = FlashBank::new();
    let cfg = UserConfig::get(&bank);
    assert_eq!(cfg, default_config());
}

#[test]
fn get_returns_default_on_bad_magic_or_checksum() {
    let mut bank = FlashBank::new();
    let record = blethrs::link::build_config_record(
        &[1, 2, 3, 4, 5, 6],
        &[10, 0, 0, 2],
        &[10, 0, 0, 1],
        16,
    );
    // Valid record: the stored values come back.
    bank.write(FLASH_CONFIG, 24, &record).unwrap();
    let cfg = UserConfig::get(&bank);
    assert_eq!(cfg.mac_address, [1, 2, 3, 4, 5, 6]);
    assert_eq!(cfg.ip_address, [10, 0, 0, 2]);
    assert_eq!(cfg.ip_gateway, [10, 0, 0, 1]);
    assert_eq!(cfg.ip_prefix, 16);

    // Corrupt the magic: default comes back.
    let mut bad_magic = record.clone();
    bad_magic[0] ^= 0xFF;
    bank.erase(FLASH_CONFIG, 24).unwrap();
    bank.write(FLASH_CONFIG, 24, &bad_magic).unwrap();
    assert_eq!(UserConfig::get(&bank), default_config());

    // Corrupt one payload byte so the checksum no longer matches.
    let mut bad_sum = record.clone();
    bad_sum[10] ^= 0x01;
    bank.erase(FLASH_CONFIG, 24).unwrap();
    bank.write(FLASH_CONFIG, 24, &bad_sum).unwrap();
    assert_eq!(UserConfig::get(&bank), default_config());
}

#[test]
fn valid_user_code_checks_the_reset_vector() {
    let mut bank = FlashBank::new();
    // Blank flash: the reset vector reads 0xFFFF_FFFF, outside flash.
    assert_eq!(valid_user_code(&bank), None);
    // A reset vector pointing into the user region is accepted.
    let mut vt = vec![0u8; 8];
    vt[4..8].copy_from_slice(&(USER + 0x101).to_le_bytes());
    bank.write(USER, 8, &vt).unwrap();
    assert_eq!(valid_user_code(&bank), Some(USER));
    // One pointing below the user region is not.
    let mut vt2 = vec![0u8; 8];
    vt2[4..8].copy_from_slice(&0x0800_0000u32.to_le_bytes());
    bank.erase(USER, 8).unwrap();
    bank.write(USER, 8, &vt2).unwrap();
    assert_eq!(valid_user_code(&bank), None);
}

#[test]
fn flash_is_locked_after_operations() {
    let mut bank = FlashBank::new();
    bank.write(USER, 4, &vec![1, 2, 3, 4]).unwrap();
    assert!(bank.locked);
    bank.erase(USER, 4).unwrap();
    assert!(bank.locked);
}
