//! Host-side verified-transfer client logic: request framing, response
//! checking, the chunk plan used to push a firmware image, the readback
//! comparison, and the configuration record with its checksum.
//!
//! The TCP transport itself lives outside the library; everything the host
//! decides or computes over bytes is here, verified.

use vstd::prelude::*;
use vstd::array::array_as_slice;
use crate::cmd::{INFO, READ, ERASE, WRITE, BOOT};
use crate::crc32::{le_word, word_to_bytes, word_at, checksum_of_bytes, record_checksum,
    lemma_le_word_roundtrip};
use crate::flash::{CONFIG_MAGIC, stored_magic, stored_checksum};

verus! {

/// What the host client can fail with.
#[derive(Clone, Copy, Debug, PartialEq, Eq, Structural)]
pub enum Error {
    /// Connecting to the device failed at the transport level.
    TcpConnect,
    /// The device answered with a status other than success.
    Bootloader(crate::Error),
    /// The reply was too short or carried a status no variant names.
    InvalidResponse,
    /// Readback after a write diverged from what was written, at the first
    /// differing byte.
    ReadMismatch { flash_addr: u32, wrote: u8, read: u8 },
}

/// Check a raw reply: the first four bytes are the little-endian status
/// word; on success the rest is the payload.
pub fn check_response(data: &Vec<u8>) -> (r: Result<Vec<u8>, Error>)
    ensures
        data@.len() < 4 ==> r == Err::<Vec<u8>, Error>(Error::InvalidResponse),
        data@.len() >= 4 ==> ({
            let u = le_word(data@[0], data@[1], data@[2], data@[3]);
            &&& u == 0 ==> r is Ok && r->Ok_0@ =~= data@.skip(4)
            &&& 1 <= u <= 9 ==> (r matches Err(Error::Bootloader(e)) && e.spec_code() == u)
            &&& u > 9 ==> r == Err::<Vec<u8>, Error>(Error::InvalidResponse)
        }),
{
    if data.len() < 4 {
        return Err(Error::InvalidResponse);
    }
    let u = word_at(data, 0);
    match crate::Error::try_from(u) {
        Ok(status) => match status {
            crate::Error::Success => {
                let mut payload: Vec<u8> = Vec::new();
                let mut i: usize = 4;
                while i < data.len()
                    invariant
                        4 <= i <= data@.len(),
                        payload@ =~= data@.subrange(4, i as int),
                    decreases data@.len() - i,
                {
                    payload.push(data[i]);
                    i = i + 1;
                }
                proof {
                    assert(payload@ =~= data@.skip(4));
                }
                Ok(payload)
            },
            _ => Err(Error::Bootloader(status)),
        },
        Err(_) => Err(Error::InvalidResponse),
    }
}

/// Append the four little-endian bytes of a word.
pub fn push_u32_le(v: &mut Vec<u8>, w: u32)
    ensures
        final(v)@ =~= old(v)@ + word_to_bytes(w),
{
    proof {
        assert(w & 0xff < 256 && (w >> 8) & 0xff < 256 && (w >> 16) & 0xff < 256 && (w >> 24)
            & 0xff < 256) by (bit_vector);
    }
    v.push((w & 0xff) as u8);
    v.push(((w >> 8) & 0xff) as u8);
    v.push(((w >> 16) & 0xff) as u8);
    v.push(((w >> 24) & 0xff) as u8);
}

/// The request bytes of the information command.
pub fn info_frame() -> (r: Vec<u8>)
    ensures
        r@ =~= word_to_bytes(INFO),
{
    let mut b: Vec<u8> = Vec::new();
    push_u32_le(&mut b, INFO);
    b
}

/// The request bytes of a read of `len` bytes at `flash_addr`.
pub fn read_frame(flash_addr: u32, len: u32) -> (r: Vec<u8>)
    ensures
        r@ =~= word_to_bytes(READ) + word_to_bytes(flash_addr) + word_to_bytes(len),
{
    let mut b: Vec<u8> = Vec::new();
    push_u32_le(&mut b, READ);
    push_u32_le(&mut b, flash_addr);
    push_u32_le(&mut b, len);
    b
}

/// The request bytes of an erase of `len` bytes at `flash_addr`.
pub fn erase_frame(flash_addr: u32, len: u32) -> (r: Vec<u8>)
    ensures
        r@ =~= word_to_bytes(ERASE) + word_to_bytes(flash_addr) + word_to_bytes(len),
{
    let mut b: Vec<u8> = Vec::new();
    push_u32_le(&mut b, ERASE);
    push_u32_le(&mut b, flash_addr);
    push_u32_le(&mut b, len);
    b
}

/// The request bytes of a write of `data` at `flash_addr`.
pub fn write_frame(flash_addr: u32, data: &Vec<u8>) -> (r: Vec<u8>)
    requires
        data@.len() <= u32::MAX,
    ensures
        r@ =~= word_to_bytes(WRITE) + word_to_bytes(flash_addr) + word_to_bytes(
            data@.len() as u32,
        ) + data@,
{
    let mut b: Vec<u8> = Vec::new();
    push_u32_le(&mut b, WRITE);
    push_u32_le(&mut b, flash_addr);
    push_u32_le(&mut b, data.len() as u32);
    b.extend_from_slice(data.as_slice());
    b
}

/// The request bytes of the reboot command.
pub fn boot_frame() -> (r: Vec<u8>)
    ensures
        r@ =~= word_to_bytes(BOOT),
{
    let mut b: Vec<u8> = Vec::new();
    push_u32_le(&mut b, BOOT);
    b
}

/// Bytes of `0xFF` the image needs to reach a multiple of four.
pub open spec fn pad_len(n: int) -> int {
    if n % 4 == 0 {
        0
    } else {
        4 - n % 4
    }
}

/// Pad an image with `0xFF` to a multiple of four bytes, as flash is
/// programmed word by word. The image's own bytes keep their values.
pub fn pad_image(data: &mut Vec<u8>)
    requires
        old(data)@.len() + 3 <= usize::MAX,
    ensures
        final(data)@.len() == old(data)@.len() + pad_len(old(data)@.len() as int),
        final(data)@.len() % 4 == 0,
        final(data)@.take(old(data)@.len() as int) =~= old(data)@,
        forall|j: int|
            old(data)@.len() <= j < final(data)@.len() ==> final(data)@[j] == 0xFFu8,
{
    if data.len() % 4 != 0 {
        let padding = 4 - data.len() % 4;
        let mut p: usize = 0;
        while p < padding
            invariant
                p <= padding,
                padding == pad_len(old(data)@.len() as int),
                old(data)@.len() + 3 <= usize::MAX,
                data@.len() == old(data)@.len() + p,
                data@.take(old(data)@.len() as int) =~= old(data)@,
                forall|j: int| old(data)@.len() <= j < data@.len() ==> data@[j] == 0xFFu8,
            decreases padding - p,
        {
            data.push(0xFF);
            p = p + 1;
        }
    }
}

/// One write or readback unit of a chunked transfer: the flash address it
/// goes to and the half-open byte range of the image it carries.
#[derive(Clone, Copy, Debug, PartialEq, Eq, Structural)]
pub struct Chunk {
    pub addr: u32,
    pub start: usize,
    pub end: usize,
}

/// The chunks of an image in ascending address order, as the readback
/// verification walks them: they tile `[0, data_len)` gaplessly, every
/// chunk but the last holds exactly `chunk_size` bytes, and each goes to
/// `flash_addr` plus its image offset.
pub fn read_order_chunks(flash_addr: u32, data_len: usize, chunk_size: usize) -> (r: Vec<Chunk>)
    requires
        chunk_size >= 1,
        flash_addr + data_len <= 0x1_0000_0000,
    ensures
        data_len == 0 ==> r@.len() == 0,
        data_len > 0 ==> r@.len() >= 1 && r@[0].start == 0 && r@[r@.len() - 1].end == data_len,
        data_len > 0 ==> (r@.len() - 1) * chunk_size < data_len <= r@.len() * chunk_size,
        forall|k: int|
            0 <= k < r@.len() ==> (#[trigger] r@[k]).start < r@[k].end <= data_len && r@[k].addr
                == flash_addr + r@[k].start && r@[k].start == k * chunk_size,
        forall|k: int| 0 <= k < r@.len() - 1 ==> (#[trigger] r@[k]).end == r@[k + 1].start && r@[
            k
        ].end == r@[k].start + chunk_size,
        r@.len() >= 1 ==> ({
            let last = r@[r@.len() - 1];
            last.end - last.start <= chunk_size
        }),
{
    let mut asc: Vec<Chunk> = Vec::new();
    let mut start: usize = 0;
    while start < data_len
        invariant
            chunk_size >= 1,
            flash_addr + data_len <= 0x1_0000_0000,
            start <= data_len,
            asc@.len() == 0 ==> start == 0,
            asc@.len() >= 1 ==> start == asc@[asc@.len() - 1].end && asc@[0].start == 0,
            forall|k: int|
                0 <= k < asc@.len() ==> (#[trigger] asc@[k]).start < asc@[k].end <= data_len
                    && asc@[k].addr == flash_addr + asc@[k].start && asc@[k].start == k
                    * chunk_size,
            forall|k: int|
                0 <= k < asc@.len() - 1 ==> (#[trigger] asc@[k]).end == asc@[k + 1].start && asc@[
                    k
                ].end == asc@[k].start + chunk_size,
            asc@.len() >= 1 ==> asc@[asc@.len() - 1].end - asc@[asc@.len() - 1].start
                <= chunk_size,
            asc@.len() >= 1 && start < data_len ==> asc@[asc@.len() - 1].end == asc@[asc@.len()
                - 1].start + chunk_size,
        decreases data_len - start,
    {
        let end: usize = if data_len - start > chunk_size {
            start + chunk_size
        } else {
            data_len
        };
        proof {
            let m = asc@.len() as int;
            assert(m * chunk_size == (m - 1) * chunk_size + chunk_size) by (nonlinear_arith);
            assert((m + 1) * chunk_size == m * chunk_size + chunk_size) by (nonlinear_arith);
        }
        asc.push(Chunk { addr: flash_addr + (start as u32), start, end });
        start = end;
    }
    proof {
        if data_len > 0 {
            let m = asc@.len() as int;
            assert(m * chunk_size == (m - 1) * chunk_size + chunk_size) by (nonlinear_arith);
            assert(asc@[m - 1].start == (m - 1) * chunk_size);
        }
    }
    asc
}

/// The chunks of an image in the order they are written: strictly
/// descending addresses, ending with the chunk that holds the image's
/// lowest address — the reset vector. A transfer interrupted anywhere
/// therefore leaves the reset-vector slot unwritten, and the image is still
/// judged invalid at the next boot.
pub fn write_order_chunks(flash_addr: u32, data_len: usize, chunk_size: usize) -> (r: Vec<Chunk>)
    requires
        chunk_size >= 1,
        flash_addr + data_len <= 0x1_0000_0000,
    ensures
        data_len == 0 ==> r@.len() == 0,
        data_len > 0 ==> r@.len() >= 1 && r@[0].end == data_len && r@[r@.len() - 1].start == 0
            && r@[r@.len() - 1].addr == flash_addr,
        data_len > 0 ==> (r@.len() - 1) * chunk_size < data_len <= r@.len() * chunk_size,
        forall|k: int|
            0 <= k < r@.len() ==> (#[trigger] r@[k]).start < r@[k].end <= data_len && r@[k].addr
                == flash_addr + r@[k].start && r@[k].start == (r@.len() - 1 - k) * chunk_size,
        forall|k: int| 0 <= k < r@.len() - 1 ==> (#[trigger] r@[k]).start == r@[k + 1].end,
        forall|k: int|
            1 <= k < r@.len() ==> (#[trigger] r@[k]).end == r@[k].start + chunk_size,
        forall|k: int| 0 <= k < r@.len() - 1 ==> (#[trigger] r@[k]).addr > r@[k + 1].addr,
        forall|k: int| 0 <= k < r@.len() - 1 ==> (#[trigger] r@[k]).start >= chunk_size,
{
    let asc = read_order_chunks(flash_addr, data_len, chunk_size);
    let n = asc.len();
    let mut r: Vec<Chunk> = Vec::new();
    let mut k: usize = 0;
    while k < n
        invariant
            n == asc@.len(),
            k <= n,
            r@.len() == k,
            forall|j: int| 0 <= j < k ==> r@[j] == asc@[n - 1 - j],
        decreases n - k,
    {
        r.push(asc[n - 1 - k]);
        k = k + 1;
    }
    proof {
        assert forall|j: int| 0 <= j < r@.len() - 1 implies (#[trigger] r@[j]).start
            >= chunk_size by {
            assert(r@[j] == asc@[n - 1 - j]);
            assert(r@[j + 1] == asc@[n - 2 - j]);
            assert(asc@[n - 2 - j].end == asc@[n - 1 - j].start);
            assert(asc@[n - 2 - j].end == asc@[n - 2 - j].start + chunk_size);
        }
    }
    r
}

/// Whether a failed connection attempt is retried: only a refused
/// connection, and only while attempts remain — the device may be
/// transiently busy. Any other failure is surfaced at once.
pub fn should_retry_connect(refused: bool, attempts_left: u32) -> (r: bool)
    ensures
        r == (refused && attempts_left > 0),
{
    refused && attempts_left > 0
}

/// Compare a written segment against its readback. Success exactly when
/// every written byte reads back identically; otherwise the first differing
/// byte is reported with its flash address.
pub fn verify_segment(seg_addr: u32, wrote: &Vec<u8>, readback: &Vec<u8>) -> (r: Result<
    (),
    Error,
>)
    requires
        readback@.len() >= wrote@.len(),
        seg_addr + wrote@.len() <= 0x1_0000_0000,
    ensures
        r is Ok <==> wrote@ =~= readback@.take(wrote@.len() as int),
        r matches Err(Error::ReadMismatch { flash_addr, wrote: w, read: rd }) ==> ({
            let i = flash_addr - seg_addr;
            &&& 0 <= i < wrote@.len()
            &&& wrote@[i] == w
            &&& readback@[i] == rd
            &&& w != rd
            &&& forall|j: int| 0 <= j < i ==> wrote@[j] == readback@[j]
        }),
        r is Err ==> r matches Err(Error::ReadMismatch { flash_addr, wrote: w, read: rd }),
{
    let mut i: usize = 0;
    while i < wrote.len()
        invariant
            readback@.len() >= wrote@.len(),
            seg_addr + wrote@.len() <= 0x1_0000_0000,
            i <= wrote@.len(),
            forall|j: int| 0 <= j < i ==> wrote@[j] == readback@[j],
        decreases wrote@.len() - i,
    {
        if wrote[i] != readback[i] {
            return Err(
                Error::ReadMismatch {
                    flash_addr: seg_addr + (i as u32),
                    wrote: wrote[i],
                    read: readback[i],
                },
            );
        }
        i = i + 1;
    }
    Ok(())
}

/// Build the 24-byte configuration record: magic, MAC, IP, gateway, prefix
/// and padding, closed by the checksum of the 20 bytes before it, computed
/// with the device CRC convention. The finished record passes the device's
/// own magic and checksum validation.
pub fn build_config_record(mac: &[u8; 6], ip: &[u8; 4], gw: &[u8; 4], prefix: u8) -> (r: Vec<
    u8,
>)
    ensures
        r@.len() == 24,
        r@.subrange(0, 4) =~= word_to_bytes(CONFIG_MAGIC),
        r@.subrange(4, 10) =~= mac@,
        r@.subrange(10, 14) =~= ip@,
        r@.subrange(14, 18) =~= gw@,
        r@[18] == prefix,
        r@[19] == 0,
        r@.subrange(20, 24) =~= word_to_bytes(record_checksum(r@.subrange(0, 20))),
        stored_magic(r@) == CONFIG_MAGIC,
        stored_checksum(r@) == record_checksum(r@.subrange(0, 20)),
{
    let mut b: Vec<u8> = Vec::new();
    push_u32_le(&mut b, CONFIG_MAGIC);
    b.extend_from_slice(array_as_slice(mac));
    b.extend_from_slice(array_as_slice(ip));
    b.extend_from_slice(array_as_slice(gw));
    b.push(prefix);
    b.push(0);
    let crc = checksum_of_bytes(&b);
    let ghost prefix20 = b@;
    push_u32_le(&mut b, crc);
    proof {
        assert(b@.subrange(0, 20) =~= prefix20);
        assert(b@.subrange(0, 4) =~= word_to_bytes(CONFIG_MAGIC));
        assert(b@.subrange(4, 10) =~= mac@);
        assert(b@.subrange(10, 14) =~= ip@);
        assert(b@.subrange(14, 18) =~= gw@);
        assert(b@.subrange(20, 24) =~= word_to_bytes(crc));
        lemma_le_word_roundtrip(CONFIG_MAGIC, 0, 0, 0, 0);
        lemma_le_word_roundtrip(crc, 0, 0, 0, 0);
    }
    b
}

} // verus!
