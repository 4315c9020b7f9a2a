//! Bootload decision state machine: the reset-surviving RAM flag, the reset
//! cause, the boot-entry decision, and the scheduled-reset countdown.
//!
//! The flag word and the reset-cause bit live in hardware registers that
//! survive only one reset cycle; both are modelled as plain state that the
//! checks consume, which is what makes the decision valid exactly once.

use vstd::prelude::*;

verus! {

/// Magic value the RAM flag must hold to request bootloader entry.
pub const BOOTLOAD_FLAG_VALUE: u32 = 0xB001_10AD;

/// Address of the RAM flag word on the device.
pub const BOOTLOAD_FLAG_ADDRESS: u32 = 0x2000_0000;

/// Ticks the scheduled reset is deferred by, enough for a response to leave
/// the transmit buffer.
pub const RESET_DELAY_MS: u32 = 50;

/// The reset-surviving RAM word through which resident firmware requests
/// re-entry into the bootloader.
pub struct BootloadFlag {
    pub word: u32,
}

/// The reset-cause register bit that records a software-triggered reset.
/// Reading the cause clears it, so it too is valid exactly once.
pub struct ResetCause {
    pub software: bool,
}

/// Whether the most recent reset was software-triggered. The cause is
/// cleared before returning, so the answer is valid only once.
pub fn was_software_reset(rcc: &mut ResetCause) -> (r: bool)
    ensures
        r == old(rcc).software,
        !final(rcc).software,
{
    let result = rcc.software;
    rcc.software = false;
    result
}

/// What one check of the RAM flag yields, and the word it leaves behind:
/// the flag is observed set exactly when it holds the magic value, and the
/// check always clears it.
pub open spec fn spec_flag_check(word: u32) -> (u32, bool) {
    (0u32, word == BOOTLOAD_FLAG_VALUE)
}

/// Whether the RAM flag holds the magic value. The flag is cleared before
/// returning, so the answer is valid only once.
pub fn flag_set(flag: &mut BootloadFlag) -> (r: bool)
    ensures
        r == spec_flag_check(old(flag).word).1,
        final(flag).word == spec_flag_check(old(flag).word).0,
{
    let word = flag.word;
    clear_flag(flag);
    word == BOOTLOAD_FLAG_VALUE
}

/// Clear the RAM flag.
pub fn clear_flag(flag: &mut BootloadFlag)
    ensures
        final(flag).word == 0,
{
    flag.word = 0;
}

/// What resident firmware does before requesting a software reset: plant the
/// magic value in the RAM flag.
pub fn request_bootload(flag: &mut BootloadFlag)
    ensures
        final(flag).word == BOOTLOAD_FLAG_VALUE,
{
    flag.word = BOOTLOAD_FLAG_VALUE;
}

/// The flag is consume-once: after the firmware plants the magic value, the
/// first check observes it (and clears the word), and a second check
/// observes nothing.
pub proof fn lemma_flag_consume_once()
    ensures
        spec_flag_check(BOOTLOAD_FLAG_VALUE).1,
        !spec_flag_check(spec_flag_check(BOOTLOAD_FLAG_VALUE).0).1,
{
}

/// Whether to chainload the user firmware: true unless the reset was
/// software-triggered with the RAM flag planted. The reset cause is always
/// consumed; the flag is consumed only when the reset was software-triggered
/// (the check short-circuits).
pub fn should_bootload(rcc: &mut ResetCause, flag: &mut BootloadFlag) -> (r: bool)
    ensures
        r == !(old(rcc).software && old(flag).word == BOOTLOAD_FLAG_VALUE),
        !final(rcc).software,
        final(flag).word == if old(rcc).software {
            0u32
        } else {
            old(flag).word
        },
{
    !(was_software_reset(rcc) && flag_set(flag))
}

/// Whether any reading sampled during the boot-time window saw the external
/// bootload signal asserted.
pub open spec fn window_asserted(samples: Seq<bool>) -> bool {
    exists|i: int| 0 <= i < samples.len() && samples[i]
}

/// Whether to enter bootload mode at reset: either the resident firmware
/// requested it (software reset with the RAM flag planted, both consumed by
/// the check) or the external signal was sampled asserted at some point
/// during the boot-time window.
pub fn should_enter_bootloader(
    rcc: &mut ResetCause,
    flag: &mut BootloadFlag,
    samples: &Vec<bool>,
) -> (r: bool)
    ensures
        r == ((old(rcc).software && old(flag).word == BOOTLOAD_FLAG_VALUE) || window_asserted(
            samples@,
        )),
        !final(rcc).software,
        final(flag).word == if old(rcc).software {
            0u32
        } else {
            old(flag).word
        },
{
    let cond1 = was_software_reset(rcc) && flag_set(flag);
    let mut cond2 = false;
    let mut i: usize = 0;
    while i < samples.len()
        invariant
            i <= samples@.len(),
            cond2 == window_asserted(samples@.take(i as int)),
        decreases samples@.len() - i,
    {
        if samples[i] {
            cond2 = true;
        }
        proof {
            assert(samples@.take(i + 1).last() == samples@[i as int]);
            assert(samples@.take(i as int) =~= samples@.take(i + 1).drop_last());
            assert(window_asserted(samples@.take(i + 1)) == (window_asserted(
                samples@.take(i as int),
            ) || samples@[i as int]));
        }
        i = i + 1;
    }
    proof {
        assert(samples@.take(samples@.len() as int) =~= samples@);
    }
    cond1 || cond2
}

/// Whether to enter the resident application rather than stay in the
/// bootloader: true exactly when no sampled reading saw the external signal
/// asserted.
pub fn app_entry_cond(samples: &Vec<bool>) -> (r: bool)
    ensures
        r == !window_asserted(samples@),
{
    let mut asserted = false;
    let mut i: usize = 0;
    while i < samples.len()
        invariant
            i <= samples@.len(),
            asserted == window_asserted(samples@.take(i as int)),
        decreases samples@.len() - i,
    {
        if samples[i] {
            asserted = true;
        }
        proof {
            assert(samples@.take(i + 1).last() == samples@[i as int]);
            assert(samples@.take(i as int) =~= samples@.take(i + 1).drop_last());
            assert(window_asserted(samples@.take(i + 1)) == (window_asserted(
                samples@.take(i as int),
            ) || samples@[i as int]));
        }
        i = i + 1;
    }
    proof {
        assert(samples@.take(samples@.len() as int) =~= samples@);
    }
    !asserted
}

/// The millisecond tick counter and the optional scheduled-reset deadline.
pub struct SysTicker {
    pub ticks: u32,
    pub reset_at: Option<u32>,
}

impl SysTicker {
    /// A fresh counter with no reset scheduled.
    pub fn new() -> (r: SysTicker)
        ensures
            r.ticks == 0,
            r.reset_at is None,
    {
        SysTicker { ticks: 0, reset_at: None }
    }

    /// Arm a reset `delay` ticks in the future.
    pub fn schedule_reset(&mut self, delay: u32)
        ensures
            final(self).ticks == old(self).ticks,
            final(self).reset_at == Some(((old(self).ticks + delay) % 0x1_0000_0000) as u32),
    {
        self.reset_at = Some(self.ticks.wrapping_add(delay));
    }

    /// Advance the counter by one millisecond tick. Returns whether the
    /// armed deadline has been reached and the reset-to-bootloader path must
    /// run now.
    pub fn tick(&mut self) -> (fire: bool)
        ensures
            final(self).ticks == ((old(self).ticks + 1) % 0x1_0000_0000),
            final(self).reset_at == old(self).reset_at,
            fire == (final(self).reset_at is Some && final(self).ticks
                >= final(self).reset_at->0),
    {
        self.ticks = self.ticks.wrapping_add(1);
        match self.reset_at {
            Some(reset_time) => self.ticks >= reset_time,
            None => false,
        }
    }
}

} // verus!
