//! Flash controller: sector table, address-range validation, erase/program/
//! read over a modelled flash bank, and the checksummed configuration record.
//!
//! The bank models the flash bytes from the configuration sector up to the
//! end of flash — the region this interface may touch. The bootloader's own
//! sectors lie below it and are unreachable by construction, so a remote
//! operation can never brick the bootloader.

use vstd::prelude::*;
use vstd::pervasive::VecAdditionalExecFns;
use crate::Error;
use crate::crc32::{le_word, word_to_bytes, record_checksum, word_at, checksum_of_bytes, rev32,
    lemma_le_word_roundtrip};

verus! {

/// Final valid flash address.
pub const FLASH_END: u32 = 0x080F_FFFF;

/// Start of the configuration sector, the lowest address this interface
/// reaches.
pub const FLASH_CONFIG: u32 = 0x0800_C000;

/// Start of the user firmware region.
pub const FLASH_USER: u32 = 0x0801_0000;

/// Magic value a stored configuration record must carry.
pub const CONFIG_MAGIC: u32 = 0x6779_7870;

/// Number of flash sectors.
pub const NUM_SECTORS: usize = 12;

/// Largest transfer a single read, write or erase request may name, in bytes.
pub const MAX_TRANSFER: usize = 1024;

/// Bytes held by the modelled bank: `[FLASH_CONFIG, FLASH_END]`.
pub const BANK_SIZE: usize = 0xF_4000;

/// Start address of each flash sector.
pub open spec fn spec_sector_start(i: int) -> u32 {
    if i <= 0 {
        0x0800_0000
    } else if i == 1 {
        0x0800_4000
    } else if i == 2 {
        0x0800_8000
    } else if i == 3 {
        0x0800_C000
    } else if i == 4 {
        0x0801_0000
    } else if i == 5 {
        0x0802_0000
    } else if i == 6 {
        0x0804_0000
    } else if i == 7 {
        0x0806_0000
    } else if i == 8 {
        0x0808_0000
    } else if i == 9 {
        0x080A_0000
    } else if i == 10 {
        0x080C_0000
    } else {
        0x080E_0000
    }
}

/// Last address of each flash sector.
pub open spec fn spec_sector_end(i: int) -> u32 {
    if i < 11 {
        (spec_sector_start(i + 1) - 1) as u32
    } else {
        FLASH_END
    }
}

/// The sector an address belongs to.
pub open spec fn spec_addr_sector(a: u32) -> int {
    if a < spec_sector_start(1) {
        0
    } else if a < spec_sector_start(2) {
        1
    } else if a < spec_sector_start(3) {
        2
    } else if a < spec_sector_start(4) {
        3
    } else if a < spec_sector_start(5) {
        4
    } else if a < spec_sector_start(6) {
        5
    } else if a < spec_sector_start(7) {
        6
    } else if a < spec_sector_start(8) {
        7
    } else if a < spec_sector_start(9) {
        8
    } else if a < spec_sector_start(10) {
        9
    } else if a < spec_sector_start(11) {
        10
    } else {
        11
    }
}

/// Start address of sector `i`.
pub fn sector_start(i: usize) -> (r: u32)
    requires
        i < NUM_SECTORS,
    ensures
        r == spec_sector_start(i as int),
{
    if i == 0 {
        0x0800_0000
    } else if i == 1 {
        0x0800_4000
    } else if i == 2 {
        0x0800_8000
    } else if i == 3 {
        0x0800_C000
    } else if i == 4 {
        0x0801_0000
    } else if i == 5 {
        0x0802_0000
    } else if i == 6 {
        0x0804_0000
    } else if i == 7 {
        0x0806_0000
    } else if i == 8 {
        0x0808_0000
    } else if i == 9 {
        0x080A_0000
    } else if i == 10 {
        0x080C_0000
    } else {
        0x080E_0000
    }
}

/// Last address of sector `i`.
pub fn sector_end(i: usize) -> (r: u32)
    requires
        i < NUM_SECTORS,
    ensures
        r == spec_sector_end(i as int),
{
    if i < 11 {
        sector_start(i + 1) - 1
    } else {
        FLASH_END
    }
}

/// Whether the half-open range `[address, address + length)` of a request
/// with positive length touches sector `i`: one of the range's first and
/// last bytes falls inside the sector, or the range spans the whole sector.
pub open spec fn sector_overlaps(i: int, address: u32, length: int) -> bool {
    let s = spec_sector_start(i) as int;
    let e = spec_sector_end(i) as int;
    let a = address as int;
    let b = address + length - 1;
    (a >= s && a <= e) || (b >= s && b <= e) || (a <= s && b >= e)
}

/// The result `check_address_valid` owes for a request, error priority
/// included. A length must be a positive multiple of four; zero names no
/// such multiple and is refused with the length error.
pub open spec fn spec_check_address(address: u32, length: int) -> Result<(), Error> {
    if length == 0 || length % 4 != 0 {
        Err(Error::LengthNotMultiple4)
    } else if length > MAX_TRANSFER {
        Err(Error::LengthTooLong)
    } else if address < FLASH_CONFIG {
        Err(Error::InvalidAddress)
    } else if address > FLASH_END - length + 1 {
        Err(Error::InvalidAddress)
    } else {
        Ok(())
    }
}

/// A request is accepted exactly when its length is a positive multiple of
/// four, no longer than the maximum transfer, and the range lies between
/// the configuration sector and the end of flash.
pub open spec fn valid_range(address: u32, length: int) -> bool {
    length > 0 && length % 4 == 0 && length <= MAX_TRANSFER && address >= FLASH_CONFIG && address
        + length <= FLASH_END + 1
}

/// Check that `[address, address + length)` may be read, written or erased.
pub fn check_address_valid(address: u32, length: usize) -> (r: Result<(), Error>)
    ensures
        r == spec_check_address(address, length as int),
        r is Ok <==> valid_range(address, length as int),
{
    if length == 0 || length % 4 != 0 {
        Err(Error::LengthNotMultiple4)
    } else if length > MAX_TRANSFER {
        Err(Error::LengthTooLong)
    } else if address < FLASH_CONFIG {
        Err(Error::InvalidAddress)
    } else if address > FLASH_END - (length as u32) + 1 {
        Err(Error::InvalidAddress)
    } else {
        Ok(())
    }
}

/// Byte offset of an address within the bank.
pub open spec fn bank_off(a: u32) -> int {
    a - FLASH_CONFIG
}

/// `mem` with `data` stored at byte offset `off`; all other bytes keep their
/// value.
pub open spec fn store_bytes(mem: Seq<u8>, off: int, data: Seq<u8>) -> Seq<u8> {
    Seq::new(mem.len(), |j: int| if off <= j < off + data.len() {
        data[j - off]
    } else {
        mem[j]
    })
}

/// Writing a buffer and reading the same range back yields the buffer, and
/// every byte outside the range keeps its value.
pub proof fn lemma_write_read_roundtrip(mem: Seq<u8>, off: int, data: Seq<u8>)
    requires
        0 <= off,
        off + data.len() <= mem.len(),
    ensures
        store_bytes(mem, off, data).subrange(off, off + data.len() as int) =~= data,
        forall|j: int|
            0 <= j < mem.len() && !(off <= j < off + data.len()) ==> store_bytes(mem, off, data)[j]
                == mem[j],
{
}

/// The modelled flash bank: the bytes of `[FLASH_CONFIG, FLASH_END]` and the
/// controller's lock bit.
pub struct FlashBank {
    /// Byte `j` holds the value at address `FLASH_CONFIG + j`.
    pub mem: Vec<u8>,
    /// Whether the flash control register is locked against erase/program.
    pub locked: bool,
}

impl FlashBank {
    /// The bank always spans exactly the reachable region.
    pub open spec fn wf(self) -> bool {
        self.mem@.len() == BANK_SIZE
    }

    /// A bank fresh from a full erase: every byte `0xFF`, flash locked.
    pub fn new() -> (r: FlashBank)
        ensures
            r.wf(),
            r.locked,
            forall|j: int| 0 <= j < BANK_SIZE ==> r.mem@[j] == 0xFFu8,
    {
        FlashBank { mem: vec![0xFFu8; BANK_SIZE], locked: true }
    }

    /// Unlock the flash control register. The two-phase key write always
    /// succeeds on the modelled controller.
    fn unlock(&mut self) -> (r: Result<(), Error>)
        ensures
            r is Ok,
            final(self).mem == old(self).mem,
            !final(self).locked,
    {
        self.locked = false;
        Ok(())
    }

    /// Lock the flash control register.
    fn lock(&mut self)
        ensures
            final(self).mem == old(self).mem,
            final(self).locked,
    {
        self.locked = true;
    }

    /// Read `length` bytes at `address`. Flash is readable without
    /// unlocking; only the range is checked.
    pub fn read(&self, address: u32, length: usize) -> (r: Result<Vec<u8>, Error>)
        requires
            self.wf(),
        ensures
            r is Ok <==> valid_range(address, length as int),
            r is Ok ==> r->Ok_0@ =~= self.mem@.subrange(
                bank_off(address),
                bank_off(address) + length,
            ),
            r is Err ==> r->Err_0 == spec_check_address(address, length as int)->Err_0,
    {
        if let Err(e) = check_address_valid(address, length) {
            return Err(e);
        }
        let off: usize = (address - FLASH_CONFIG) as usize;
        let mut out: Vec<u8> = Vec::new();
        let mut i: usize = 0;
        while i < length
            invariant
                self.wf(),
                valid_range(address, length as int),
                off == bank_off(address),
                i <= length,
                out@ =~= self.mem@.subrange(off as int, off + i),
            decreases length - i,
        {
            out.push(self.mem[off + i]);
            i = i + 1;
        }
        Ok(out)
    }

    /// Program `data` at `address`, one 32-bit word at a time, rebuilding
    /// each word little-endian from its four source bytes. The flash is
    /// unlocked for the operation and re-locked on exit.
    pub fn write(&mut self, address: u32, length: usize, data: &Vec<u8>) -> (r: Result<(), Error>)
        requires
            old(self).wf(),
        ensures
            final(self).wf(),
            r == spec_write_result(address, length as int, data@.len() as int),
            r is Ok ==> final(self).mem@ =~= store_bytes(old(self).mem@, bank_off(address), data@)
                && final(self).locked,
            r is Err ==> *final(self) == *old(self),
    {
        if let Err(e) = check_address_valid(address, length) {
            return Err(e);
        }
        if data.len() != length {
            return Err(Error::DataLengthIncorrect);
        }
        self.unlock().unwrap();
        let off: usize = (address - FLASH_CONFIG) as usize;
        let words: usize = length / 4;
        let mut i: usize = 0;
        while i < words
            invariant
                old(self).wf(),
                self.wf(),
                !self.locked,
                valid_range(address, length as int),
                data@.len() == length,
                off == bank_off(address),
                words == length / 4,
                i <= words,
                self.mem@ =~= store_bytes(old(self).mem@, off as int, data@.take(4 * i)),
            decreases words - i,
        {
            proof {
                assert(length == 4 * (length as int / 4)) by {
                    assert(length as int == 4 * (length as int / 4) + length as int % 4);
                }
            }
            let w: u32 = word_at(data, 4 * i);
            let b0: u8 = (w & 0xff) as u8;
            let b1: u8 = ((w >> 8) & 0xff) as u8;
            let b2: u8 = ((w >> 16) & 0xff) as u8;
            let b3: u8 = ((w >> 24) & 0xff) as u8;
            self.mem.set(off + 4 * i, b0);
            self.mem.set(off + 4 * i + 1, b1);
            self.mem.set(off + 4 * i + 2, b2);
            self.mem.set(off + 4 * i + 3, b3);
            proof {
                lemma_le_word_roundtrip(
                    w,
                    data@[4 * i],
                    data@[4 * i + 1],
                    data@[4 * i + 2],
                    data@[4 * i + 3],
                );
                assert(self.mem@ =~= store_bytes(old(self).mem@, off as int, data@.take(4 * i
                    + 4)));
            }
            i = i + 1;
        }
        proof {
            assert(data@.take(4 * (words as int)) =~= data@);
        }
        self.lock();
        Ok(())
    }
}

/// First byte offset of sector `i` within the bank.
pub open spec fn sector_lo(i: int) -> int {
    spec_sector_start(i) - FLASH_CONFIG
}

/// Last byte offset of sector `i` within the bank.
pub open spec fn sector_hi(i: int) -> int {
    spec_sector_end(i) - FLASH_CONFIG
}

/// Whether erasing `[address, address + length)` erases the bank byte at
/// offset `j`: some reachable sector touched by the range holds that byte.
pub open spec fn erase_covers(j: int, address: u32, length: int) -> bool {
    exists|i: int|
        3 <= i < NUM_SECTORS && #[trigger] sector_overlaps(i, address, length) && sector_lo(i) <= j
            <= sector_hi(i)
}

/// `mem` after erasing `[address, address + length)`: every byte whose
/// sector the range touches becomes `0xFF`, every other byte keeps its
/// value.
pub open spec fn erased_mem(mem: Seq<u8>, address: u32, length: int) -> Seq<u8> {
    Seq::new(
        mem.len(),
        |j: int|
            if erase_covers(j, address, length) {
                0xFFu8
            } else {
                mem[j]
            },
    )
}

/// Erasing a range erases exactly the bytes whose own sector the range
/// touches: a byte is covered if and only if the sector it belongs to
/// overlaps the requested range.
pub proof fn lemma_erase_exact(j: int, address: u32, length: int)
    requires
        0 <= j < BANK_SIZE,
        0 <= length,
    ensures
        erase_covers(j, address, length) <==> sector_overlaps(
            spec_addr_sector((FLASH_CONFIG + j) as u32),
            address,
            length,
        ),
{
    let a = (FLASH_CONFIG + j) as u32;
    let s = spec_addr_sector(a);
    assert(3 <= s < NUM_SECTORS && sector_lo(s) <= j <= sector_hi(s));
    if erase_covers(j, address, length) {
        let i = choose|i: int|
            3 <= i < NUM_SECTORS && #[trigger] sector_overlaps(i, address, length) && sector_lo(i)
                <= j <= sector_hi(i);
        assert(i == s);
    }
}

impl FlashBank {
    /// Erase sector `sector`: every byte of it becomes `0xFF`. The flash is
    /// unlocked for the erase and re-locked on exit, also on failure. A
    /// sector index beyond the table is refused.
    fn erase_sector(&mut self, sector: u8) -> (r: Result<(), Error>)
        requires
            old(self).wf(),
            3 <= sector,
        ensures
            final(self).wf(),
            sector >= NUM_SECTORS ==> r == Err::<(), Error>(Error::InternalError) && *final(self)
                == *old(self),
            sector < NUM_SECTORS ==> r is Ok && final(self).locked && final(self).mem@ =~= Seq::new(
                BANK_SIZE as nat,
                |j: int|
                    if sector_lo(sector as int) <= j <= sector_hi(sector as int) {
                        0xFFu8
                    } else {
                        old(self).mem@[j]
                    },
            ),
    {
        if sector as usize >= NUM_SECTORS {
            return Err(Error::InternalError);
        }
        self.unlock().unwrap();
        let lo: usize = (sector_start(sector as usize) - FLASH_CONFIG) as usize;
        let hi: usize = (sector_end(sector as usize) - FLASH_CONFIG) as usize;
        let mut j: usize = lo;
        while j <= hi
            invariant
                old(self).wf(),
                self.wf(),
                !self.locked,
                3 <= sector < NUM_SECTORS,
                lo == sector_lo(sector as int),
                hi == sector_hi(sector as int),
                lo <= j <= hi + 1,
                hi < BANK_SIZE,
                self.mem@ =~= Seq::new(
                    BANK_SIZE as nat,
                    |k: int|
                        if lo <= k < j {
                            0xFFu8
                        } else {
                            old(self).mem@[k]
                        },
                ),
            decreases hi + 1 - j,
        {
            self.mem.set(j, 0xFF);
            j = j + 1;
        }
        self.lock();
        Ok(())
    }

    /// Erase every sector the range `[address, address + length)` touches,
    /// after validating the range. On success each byte whose sector the
    /// range touches is `0xFF` and every other byte keeps its value; the
    /// flash is left locked. A rejected range changes nothing.
    pub fn erase(&mut self, address: u32, length: usize) -> (r: Result<(), Error>)
        requires
            old(self).wf(),
        ensures
            final(self).wf(),
            r == spec_check_address(address, length as int),
            r is Ok ==> final(self).mem@ =~= erased_mem(old(self).mem@, address, length as int)
                && final(self).locked,
            r is Err ==> *final(self) == *old(self),
    {
        if let Err(e) = check_address_valid(address, length) {
            return Err(e);
        }
        let address_start = address;
        let address_end = address + length as u32 - 1;
        let mut idx: usize = 0;
        while idx < NUM_SECTORS
            invariant
                old(self).wf(),
                self.wf(),
                valid_range(address, length as int),
                address_start == address,
                address_end == address + length - 1,
                idx <= NUM_SECTORS,
                self.locked == old(self).locked || exists|i: int|
                    3 <= i < idx && #[trigger] sector_overlaps(i, address, length as int),
                self.mem@ =~= Seq::new(
                    BANK_SIZE as nat,
                    |j: int|
                        if exists|i: int|
                            3 <= i < idx && #[trigger] sector_overlaps(i, address, length as int)
                                && sector_lo(i) <= j <= sector_hi(i) {
                            0xFFu8
                        } else {
                            old(self).mem@[j]
                        },
                ),
            decreases NUM_SECTORS - idx,
        {
            let s_start = sector_start(idx);
            let s_end = sector_end(idx);
            if (address_start >= s_start && address_start <= s_end) || (address_end >= s_start
                && address_end <= s_end) || (address_start <= s_start && address_end >= s_end) {
                proof {
                    assert(sector_overlaps(idx as int, address, length as int));
                    assert(idx >= 3);
                }
                self.erase_sector(idx as u8).unwrap();
                proof {
                    assert(self.mem@ =~= Seq::new(
                        BANK_SIZE as nat,
                        |j: int|
                            if exists|i: int|
                                3 <= i < idx + 1 && #[trigger] sector_overlaps(
                                    i,
                                    address,
                                    length as int,
                                ) && sector_lo(i) <= j <= sector_hi(i) {
                                0xFFu8
                            } else {
                                old(self).mem@[j]
                            },
                    ));
                }
            } else {
                proof {
                    assert(!sector_overlaps(idx as int, address, length as int));
                }
            }
            idx = idx + 1;
        }
        self.lock();
        Ok(())
    }
}

/// The result `write` owes for a request: the range check first, then the
/// payload must hold exactly the announced number of bytes.
pub open spec fn spec_write_result(address: u32, length: int, data_len: int) -> Result<(), Error> {
    if !(spec_check_address(address, length) is Ok) {
        spec_check_address(address, length)
    } else if data_len != length {
        Err(Error::DataLengthIncorrect)
    } else {
        Ok(())
    }
}

/// The user configuration record stored at the configuration sector:
/// magic (4) · MAC (6) · IP (4) · gateway (4) · prefix (1) · padding (1) ·
/// checksum (4), 24 bytes with no gaps.
#[derive(Clone, Copy, Debug, PartialEq, Eq)]
pub struct UserConfig {
    pub magic: u32,
    pub mac_address: [u8; 6],
    pub ip_address: [u8; 4],
    pub ip_gateway: [u8; 4],
    pub ip_prefix: u8,
    pub padding: u8,
    pub checksum: u32,
}

/// Magic word of the record stored at the configuration sector.
pub open spec fn stored_magic(mem: Seq<u8>) -> u32 {
    le_word(mem[0], mem[1], mem[2], mem[3])
}

/// Checksum word of the record stored at the configuration sector.
pub open spec fn stored_checksum(mem: Seq<u8>) -> u32 {
    le_word(mem[20], mem[21], mem[22], mem[23])
}

/// A stored record is accepted exactly when its magic matches and the
/// checksum of the 20 bytes before it matches the stored checksum.
pub open spec fn config_valid(mem: Seq<u8>) -> bool {
    stored_magic(mem) == CONFIG_MAGIC && record_checksum(mem.subrange(0, 20)) == stored_checksum(
        mem,
    )
}

/// The compiled-in record substituted when no valid record is stored.
pub open spec fn is_default_config(c: UserConfig) -> bool {
    c.magic == 0 && c.mac_address@ =~= seq![0x02u8, 0x00, 0x01, 0x02, 0x03, 0x04]
        && c.ip_address@ =~= seq![10u8, 1, 1, 10] && c.ip_gateway@ =~= seq![10u8, 1, 1, 1]
        && c.ip_prefix == 24 && c.padding == 0 && c.checksum == 0
}

/// The compiled-in default record: a locally administered MAC and a private
/// address, with no claim of a valid magic or checksum.
pub fn default_config() -> (r: UserConfig)
    ensures
        is_default_config(r),
{
    UserConfig {
        magic: 0,
        mac_address: [0x02, 0x00, 0x01, 0x02, 0x03, 0x04],
        ip_address: [10, 1, 1, 10],
        ip_gateway: [10, 1, 1, 1],
        ip_prefix: 24,
        padding: 0,
        checksum: 0,
    }
}

impl UserConfig {
    /// A record built in RAM from its network identity; carries the magic
    /// but no checksum.
    pub fn new(mac: [u8; 6], ip: [u8; 4], gw: [u8; 4], prefix: u8) -> (r: UserConfig)
        ensures
            r.magic == CONFIG_MAGIC,
            r.mac_address@ == mac@,
            r.ip_address@ == ip@,
            r.ip_gateway@ == gw@,
            r.ip_prefix == prefix,
            r.padding == 0,
            r.checksum == 0,
    {
        UserConfig {
            magic: CONFIG_MAGIC,
            mac_address: mac,
            ip_address: ip,
            ip_gateway: gw,
            ip_prefix: prefix,
            padding: 0,
            checksum: 0,
        }
    }

    /// Read the record stored at the configuration sector. The stored record
    /// is returned exactly when both its magic and its checksum match; on
    /// any mismatch the compiled-in default takes its place.
    pub fn get(bank: &FlashBank) -> (r: UserConfig)
        requires
            bank.wf(),
        ensures
            config_valid(bank.mem@) ==> r.magic == CONFIG_MAGIC && r.mac_address@ =~= bank.mem@
                .subrange(4, 10) && r.ip_address@ =~= bank.mem@.subrange(10, 14) && r.ip_gateway@
                =~= bank.mem@.subrange(14, 18) && r.ip_prefix == bank.mem@[18] && r.padding
                == bank.mem@[19] && r.checksum == stored_checksum(bank.mem@),
            !config_valid(bank.mem@) ==> is_default_config(r),
    {
        let magic = word_at(&bank.mem, 0);
        if magic != CONFIG_MAGIC {
            return default_config();
        }
        let mut record: Vec<u8> = Vec::new();
        let mut i: usize = 0;
        while i < 20
            invariant
                bank.wf(),
                i <= 20,
                record@ =~= bank.mem@.subrange(0, i as int),
            decreases 20 - i,
        {
            record.push(bank.mem[i]);
            i = i + 1;
        }
        let computed = checksum_of_bytes(&record);
        let stored = word_at(&bank.mem, 20);
        if computed != stored {
            return default_config();
        }
        let m = &bank.mem;
        let r = UserConfig {
            magic,
            mac_address: [m[4], m[5], m[6], m[7], m[8], m[9]],
            ip_address: [m[10], m[11], m[12], m[13]],
            ip_gateway: [m[14], m[15], m[16], m[17]],
            ip_prefix: m[18],
            padding: m[19],
            checksum: stored,
        };
        proof {
            assert(r.mac_address@ =~= bank.mem@.subrange(4, 10));
            assert(r.ip_address@ =~= bank.mem@.subrange(10, 14));
            assert(r.ip_gateway@ =~= bank.mem@.subrange(14, 18));
        }
        r
    }
}

/// Whether the user flash holds something that can be booted: the reset
/// vector stored at `FLASH_USER + 4` must point back into
/// `[FLASH_USER, FLASH_END]`. Returns the address to hand off to.
pub fn valid_user_code(bank: &FlashBank) -> (r: Option<u32>)
    requires
        bank.wf(),
    ensures
        ({
            let rv = le_word(
                bank.mem@[bank_off(FLASH_USER) + 4],
                bank.mem@[bank_off(FLASH_USER) + 5],
                bank.mem@[bank_off(FLASH_USER) + 6],
                bank.mem@[bank_off(FLASH_USER) + 7],
            );
            r == if FLASH_USER <= rv <= FLASH_END {
                Some(FLASH_USER)
            } else {
                None::<u32>
            }
        }),
{
    let off: usize = (FLASH_USER - FLASH_CONFIG) as usize;
    let reset_vector = word_at(&bank.mem, off + 4);
    if reset_vector >= FLASH_USER && reset_vector <= FLASH_END {
        Some(FLASH_USER)
    } else {
        None
    }
}

} // verus!
