//! Checksum support for the configuration record.
//!
//! The device's CRC engine consumes 32-bit words and its checksum convention
//! is reproduced on the host by bit-reversing each word before feeding it to a
//! standard CRC-32 (polynomial `0x04C1_1DB7`, all-ones initial value). The
//! digest itself is computed by the `crc` crate behind trusted wrappers; the
//! word assembly and bit reversal are verified here.

use vstd::prelude::*;

verus! {

/// Polynomial of the CRC-32 the configuration checksum uses.
pub const CRC_POLY: u32 = 0x04C1_1DB7;

/// Initial value of the CRC-32 the configuration checksum uses.
pub const CRC_INIT: u32 = 0xFFFF_FFFF;

/// The 32-bit word read little-endian from four bytes.
pub open spec fn le_word(b0: u8, b1: u8, b2: u8, b3: u8) -> u32 {
    (b0 as u32) | ((b1 as u32) << 8) | ((b2 as u32) << 16) | ((b3 as u32) << 24)
}

/// The four little-endian bytes of a 32-bit word.
pub open spec fn word_to_bytes(w: u32) -> Seq<u8> {
    seq![
        (w & 0xff) as u8,
        ((w >> 8) & 0xff) as u8,
        ((w >> 16) & 0xff) as u8,
        ((w >> 24) & 0xff) as u8,
    ]
}

/// Encoding a word and reading it back yields the word, and reading four
/// bytes and encoding the result yields the same four bytes.
pub proof fn lemma_le_word_roundtrip(w: u32, b0: u8, b1: u8, b2: u8, b3: u8)
    ensures
        le_word(
            word_to_bytes(w)[0],
            word_to_bytes(w)[1],
            word_to_bytes(w)[2],
            word_to_bytes(w)[3],
        ) == w,
        word_to_bytes(le_word(b0, b1, b2, b3)) == seq![b0, b1, b2, b3],
{
    assert((w & 0xff) | (((w >> 8) & 0xff) << 8) | (((w >> 16) & 0xff) << 16) | (((w >> 24)
        & 0xff) << 24) == w) by (bit_vector);
    assert(w & 0xff < 256 && (w >> 8) & 0xff < 256 && (w >> 16) & 0xff < 256 && (w >> 24) & 0xff
        < 256) by (bit_vector);
    let v = le_word(b0, b1, b2, b3);
    assert({
        let x = (b0 as u32) | ((b1 as u32) << 8) | ((b2 as u32) << 16) | ((b3 as u32) << 24);
        (x & 0xff) == b0 as u32 && ((x >> 8) & 0xff) == b1 as u32 && ((x >> 16) & 0xff)
            == b2 as u32 && ((x >> 24) & 0xff) == b3 as u32
    }) by (bit_vector);
    assert(word_to_bytes(v) =~= seq![b0, b1, b2, b3]);
}

/// Reversal of the low `n` bits of `w`, built up one bit at a time from the
/// low end, matching the loop in [`rev32`].
pub open spec fn rev32_partial(w: u32, n: int) -> u32
    decreases n,
{
    if n <= 0 {
        0u32
    } else {
        (rev32_partial(w, n - 1) << 1) | ((w >> ((n - 1) as u32)) & 1)
    }
}

/// Bit reversal of a 32-bit word: bit `i` of the result is bit `31 - i` of
/// the argument.
pub open spec fn rev32_spec(w: u32) -> u32 {
    rev32_partial(w, 32)
}

/// Reverse the bits of a 32-bit word, as the device CRC convention requires.
pub fn rev32(w: u32) -> (r: u32)
    ensures
        r == rev32_spec(w),
{
    let mut r: u32 = 0;
    let mut i: usize = 0;
    while i < 32
        invariant
            i <= 32,
            r == rev32_partial(w, i as int),
        decreases 32 - i,
    {
        r = (r << 1) | ((w >> (i as u32)) & 1);
        i = i + 1;
    }
    r
}

/// The 32-bit words read little-endian from a byte sequence whose length is a
/// multiple of four.
pub open spec fn words_of_le_bytes(s: Seq<u8>) -> Seq<u32> {
    Seq::new((s.len() / 4) as nat, |i: int| le_word(s[4 * i], s[4 * i + 1], s[4 * i + 2], s[4 * i + 3]))
}

/// Each word bit-reversed, the form in which words are fed to the CRC-32.
pub open spec fn rev_words(ws: Seq<u32>) -> Seq<u32> {
    ws.map_values(|w: u32| rev32_spec(w))
}

/// The checksum the device CRC engine yields for a sequence of words.
///
/// It stands for what `crc::crc32` computes in [`digest_sum32`]; nothing in
/// the crate states its value on given words.
pub uninterp spec fn crc32_of(words: Seq<u32>) -> u32;

/// The words fed so far to a `crc::crc32::Digest`.
pub uninterp spec fn digest_words(d: crc::crc32::Digest) -> Seq<u32>;

#[verifier::external_type_specification]
#[verifier::external_body]
pub struct ExDigest(crc::crc32::Digest);

/// Relies on `crc::crc32::Digest::new_with_initial`: a fresh digest has been
/// fed no words yet.
#[verifier::external_body]
fn digest_new(poly: u32, initial: u32) -> (d: crc::crc32::Digest)
    requires
        poly == CRC_POLY,
        initial == CRC_INIT,
    ensures
        digest_words(d) == Seq::<u32>::empty(),
{
    crc::crc32::Digest::new_with_initial(poly, initial)
}

/// Relies on `crc::crc32::Hasher32::write` on `Digest`: feeding the four
/// little-endian bytes of a word appends that word to what the digest has
/// consumed.
#[verifier::external_body]
fn digest_write_word(d: &mut crc::crc32::Digest, w: u32)
    ensures
        digest_words(*final(d)) == digest_words(*old(d)).push(w),
{
    crc::crc32::Hasher32::write(d, &w.to_le_bytes())
}

/// Relies on `crc::crc32::Hasher32::sum32`: the checksum is a function of the
/// words fed so far alone.
#[verifier::external_body]
fn digest_sum32(d: &crc::crc32::Digest) -> (r: u32)
    ensures
        r == crc32_of(digest_words(*d)),
{
    crc::crc32::Hasher32::sum32(d)
}

/// The checksum stored with a configuration record: the record's words, each
/// bit-reversed, run through the device CRC convention.
pub open spec fn record_checksum(bytes: Seq<u8>) -> u32 {
    crc32_of(rev_words(words_of_le_bytes(bytes)))
}

/// Read the 32-bit word at byte offset `off` of `mem`, little-endian.
pub fn word_at(mem: &Vec<u8>, off: usize) -> (w: u32)
    requires
        off + 4 <= mem@.len(),
    ensures
        w == le_word(mem@[off as int], mem@[off + 1], mem@[off + 2], mem@[off + 3]),
{
    let n: usize = mem.len();
    (mem[off] as u32) | ((mem[off + 1] as u32) << 8) | ((mem[off + 2] as u32) << 16) | ((mem[off
        + 3] as u32) << 24)
}

/// Compute the configuration-record checksum of a byte buffer whose length is
/// a multiple of four.
pub fn checksum_of_bytes(data: &Vec<u8>) -> (r: u32)
    requires
        data@.len() % 4 == 0,
    ensures
        r == record_checksum(data@),
{
    let mut d = digest_new(CRC_POLY, CRC_INIT);
    let n = data.len() / 4;
    let mut i: usize = 0;
    while i < n
        invariant
            data@.len() % 4 == 0,
            data@.len() <= usize::MAX,
            n == data@.len() / 4,
            i <= n,
            digest_words(d) =~= rev_words(words_of_le_bytes(data@)).take(i as int),
        decreases n - i,
    {
        proof {
            assert(data@.len() == 4 * (data@.len() / 4) + data@.len() % 4);
        }
        let w = word_at(data, 4 * i);
        let rw = rev32(w);
        digest_write_word(&mut d, rw);
        proof {
            assert(words_of_le_bytes(data@)[i as int] == w);
            assert(digest_words(d) =~= rev_words(words_of_le_bytes(data@)).take(i + 1));
        }
        i = i + 1;
    }
    proof {
        assert(rev_words(words_of_le_bytes(data@)).take(n as int) =~= rev_words(
            words_of_le_bytes(data@),
        ));
    }
    digest_sum32(&d)
}

} // verus!
