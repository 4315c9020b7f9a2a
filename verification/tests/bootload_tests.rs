use blethrs::bootload::{app_entry_cond, clear_flag, flag_set, request_bootload,
    should_bootload, should_enter_bootloader, was_software_reset, BootloadFlag, ResetCause,
    SysTicker, BOOTLOAD_FLAG_VALUE};

#[test]
fn flag_is_consumed_by_the_first_check() {
    let mut flag = BootloadFlag { word: 0 };
    request_bootload(&mut flag);
    assert_eq!(flag.word, BOOTLOAD_FLAG_VALUE);
    assert!(flag_set(&mut flag));
    assert!(!flag_set(&mut flag));
}

#[test]
fn a_wrong_word_does_not_count_as_a_request() {
    let mut flag = BootloadFlag { word: 0xDEAD_BEEF };
    assert!(!flag_set(&mut flag));
    assert_eq!(flag.word, 0);
}

#[test]
fn reset_cause_is_consumed_too() {
    let mut rcc = ResetCause { software: true };
    assert!(was_software_reset(&mut rcc));
    assert!(!was_software_reset(&mut rcc));
}

#[test]
fn should_bootload_requires_both_conditions() {
    // Software reset with the flag planted: stay in the bootloader.
    let mut rcc = ResetCause { software: true };
    let mut flag = BootloadFlag { word: BOOTLOAD_FLAG_VALUE };
    assert!(!should_bootload(&mut rcc, &mut flag));

    // Software reset without the flag: boot the user code.
    let mut rcc = ResetCause { software: true };
    let mut flag = BootloadFlag { word: 0 };
    assert!(should_bootload(&mut rcc, &mut flag));

    // Hardware reset: the flag is not even consulted (short circuit).
    let mut rcc = ResetCause { software: false };
    let mut flag = BootloadFlag { word: BOOTLOAD_FLAG_VALUE };
    assert!(should_bootload(&mut rcc, &mut flag));
    assert_eq!(flag.word, BOOTLOAD_FLAG_VALUE);
}

#[test]
fn sampling_window_counts_any_asserted_reading() {
    let mut rcc = ResetCause { software: false };
    let mut flag = BootloadFlag { word: 0 };
    let quiet = vec![false; 160];
    assert!(!should_enter_bootloader(&mut rcc, &mut flag, &quiet));

    let mut rcc = ResetCause { software: false };
    let mut flag = BootloadFlag { word: 0 };
    let mut one_blip = vec![false; 160];
    one_blip[77] = true;
    assert!(should_enter_bootloader(&mut rcc, &mut flag, &one_blip));

    assert!(app_entry_cond(&quiet));
    assert!(!app_entry_cond(&one_blip));
}

#[test]
fn firmware_request_enters_the_bootloader() {
    let mut rcc = ResetCause { software: true };
    let mut flag = BootloadFlag { word: BOOTLOAD_FLAG_VALUE };
    let quiet = vec![false; 16];
    assert!(should_enter_bootloader(&mut rcc, &mut flag, &quiet));
    assert_eq!(flag.word, 0);
}

#[test]
fn clear_flag_clears() {
    let mut flag = BootloadFlag { word: BOOTLOAD_FLAG_VALUE };
    clear_flag(&mut flag);
    assert_eq!(flag.word, 0);
}

#[test]
fn scheduled_reset_fires_when_the_deadline_is_reached() {
    let mut t = SysTicker::new();
    t.schedule_reset(50);
    for _ in 0..49 {
        assert!(!t.tick());
    }
    assert!(t.tick());
}

#[test]
fn no_reset_fires_without_a_schedule() {
    let mut t = SysTicker::new();
    for _ in 0..100 {
        assert!(!t.tick());
    }
}
