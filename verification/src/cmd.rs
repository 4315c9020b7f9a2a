//! Command protocol server: a 4-byte little-endian command word arrives on
//! an accepted connection, is dispatched to the flash controller or the
//! bootload machinery, and the response — always a 4-byte little-endian
//! status word, possibly followed by a payload — is queued for sending.
//!
//! The connection is modelled as the bytes received and not yet read, and
//! the bytes queued for transmission; the network stack that carries them
//! lives outside the library.

use vstd::prelude::*;
use vstd::string::StringSliceAdditionalSpecFns;
use crate::Error;
use crate::bootload::RESET_DELAY_MS;
use crate::crc32::le_word;
use crate::crc32::word_to_bytes;
use crate::flash::{FlashBank, bank_off, erased_mem, spec_check_address, spec_write_result,
    store_bytes, valid_range};

verus! {

/// TCP port the command listener is bound to.
pub const TCP_PORT: u16 = 7777;

/// Wire code of the information request.
pub const INFO: u32 = 0;

/// Wire code of the flash read request.
pub const READ: u32 = 1;

/// Wire code of the flash erase request.
pub const ERASE: u32 = 2;

/// Wire code of the flash write request.
pub const WRITE: u32 = 3;

/// Wire code of the reboot request.
pub const BOOT: u32 = 4;

/// A command the device understands.
#[derive(Clone, Copy, Debug, PartialEq, Eq, Structural)]
pub enum Command {
    Info,
    Read,
    Erase,
    Write,
    Boot,
}

/// Returned when a wire value does not name any `Command` variant.
pub struct UnknownCommand;

impl Command {
    /// The wire code this command is requested with.
    pub open spec fn spec_code(self) -> u32 {
        match self {
            Command::Info => INFO,
            Command::Read => READ,
            Command::Erase => ERASE,
            Command::Write => WRITE,
            Command::Boot => BOOT,
        }
    }

    /// Decode a wire code; fails exactly on codes no command carries.
    pub fn try_from(u: u32) -> (r: Result<Command, UnknownCommand>)
        ensures
            u <= 4 ==> r is Ok && r->Ok_0.spec_code() == u,
            u > 4 ==> r is Err,
    {
        let cmd = match u {
            0 => Command::Info,
            1 => Command::Read,
            2 => Command::Erase,
            3 => Command::Write,
            4 => Command::Boot,
            _ => {
                return Err(UnknownCommand);
            },
        };
        Ok(cmd)
    }
}

/// Information about the build running on the device, rendered into the
/// information response.
pub struct BuildInfo<'a> {
    pub pkg_version: &'a str,
    pub git_version: &'a str,
    pub built_time_utc: &'a str,
    pub rustc_version: &'a str,
}

/// The three hardware words of the device's unique identifier.
#[derive(Clone, Copy, Debug, PartialEq, Eq, Structural)]
pub struct DeviceId {
    pub id1: u32,
    pub id2: u32,
    pub id3: u32,
}

/// One accepted connection: the request bytes not yet read and the response
/// bytes queued for sending.
pub struct Connection {
    pub rx: Vec<u8>,
    pub tx: Vec<u8>,
}

/// Byte `i` of a request, reading `0` past its end — a short request leaves
/// the untouched remainder of the receive buffer zeroed.
pub open spec fn rx_byte(s: Seq<u8>, i: int) -> u8 {
    if 0 <= i < s.len() {
        s[i]
    } else {
        0
    }
}

/// The 32-bit little-endian word at the front of a request.
pub open spec fn spec_rx_word(s: Seq<u8>) -> u32 {
    le_word(rx_byte(s, 0), rx_byte(s, 1), rx_byte(s, 2), rx_byte(s, 3))
}

/// A request with its first word consumed.
pub open spec fn drop4(s: Seq<u8>) -> Seq<u8> {
    if s.len() <= 4 {
        Seq::<u8>::empty()
    } else {
        s.skip(4)
    }
}

/// The first `n` bytes of a request, or all of it when fewer are waiting.
pub open spec fn take_at_most(s: Seq<u8>, n: int) -> Seq<u8> {
    if s.len() <= n {
        s
    } else {
        s.take(n)
    }
}

/// A request with its first `n` bytes consumed.
pub open spec fn skip_at_most(s: Seq<u8>, n: int) -> Seq<u8> {
    if s.len() <= n {
        Seq::<u8>::empty()
    } else {
        s.skip(n)
    }
}

impl Connection {
    /// A fresh connection holding a complete request.
    pub fn new(request: Vec<u8>) -> (c: Connection)
        ensures
            c.rx == request,
            c.tx@ =~= Seq::<u8>::empty(),
    {
        Connection { rx: request, tx: Vec::new() }
    }

    /// Consume the 32-bit little-endian word at the front of the request;
    /// missing bytes read as zero.
    pub fn recv_u32(&mut self) -> (w: u32)
        ensures
            w == spec_rx_word(old(self).rx@),
            final(self).rx@ =~= drop4(old(self).rx@),
            final(self).tx == old(self).tx,
    {
        let b0: u8 = if self.rx.len() > 0 { self.rx[0] } else { 0 };
        let b1: u8 = if self.rx.len() > 1 { self.rx[1] } else { 0 };
        let b2: u8 = if self.rx.len() > 2 { self.rx[2] } else { 0 };
        let b3: u8 = if self.rx.len() > 3 { self.rx[3] } else { 0 };
        let k: usize = if self.rx.len() < 4 {
            self.rx.len()
        } else {
            4
        };
        let rest = self.rx.split_off(k);
        self.rx = rest;
        (b0 as u32) | ((b1 as u32) << 8) | ((b2 as u32) << 16) | ((b3 as u32) << 24)
    }

    /// Consume the next `n` bytes of the request — exactly `n` when that
    /// many are waiting, everything that is there otherwise.
    pub fn recv_bytes(&mut self, n: usize) -> (data: Vec<u8>)
        ensures
            data@ =~= take_at_most(old(self).rx@, n as int),
            final(self).rx@ =~= skip_at_most(old(self).rx@, n as int),
            final(self).tx == old(self).tx,
    {
        let k: usize = if self.rx.len() < n {
            self.rx.len()
        } else {
            n
        };
        let tail = self.rx.split_off(k);
        let head = self.rx.split_off(0);
        self.rx = tail;
        head
    }
}

/// Read a request's address and length words.
pub fn read_adr_len(conn: &mut Connection) -> (r: (u32, usize))
    ensures
        r.0 == spec_rx_word(old(conn).rx@),
        r.1 == spec_rx_word(drop4(old(conn).rx@)) as usize,
        final(conn).rx@ =~= drop4(drop4(old(conn).rx@)),
        final(conn).tx == old(conn).tx,
{
    let adr = conn.recv_u32();
    let len = conn.recv_u32();
    (adr, len as usize)
}

/// Pull one little-endian byte out of a word.
fn byte_of(w: u32, sh: u32) -> (b: u8)
    requires
        sh == 0 || sh == 8 || sh == 16 || sh == 24,
    ensures
        b as u32 == (w >> sh) & 0xff,
        sh == 0 ==> b as u32 == w & 0xff,
{
    proof {
        assert((w >> sh) & 0xff < 256 && (w >> 0u32) & 0xff == w & 0xff) by (bit_vector);
    }
    ((w >> sh) & 0xff) as u8
}

/// Queue the 4-byte little-endian status word that starts every response.
pub fn send_status(conn: &mut Connection, status: Error)
    ensures
        final(conn).rx == old(conn).rx,
        final(conn).tx@ =~= old(conn).tx@ + word_to_bytes(status.spec_code()),
{
    let code = status.code();
    conn.tx.push(byte_of(code, 0));
    conn.tx.push(byte_of(code, 8));
    conn.tx.push(byte_of(code, 16));
    conn.tx.push(byte_of(code, 24));
}

/// One nibble as an ASCII hex digit, digits then upper-case letters.
pub open spec fn hex_digit(n: u8) -> u8 {
    if n < 10 {
        (48 + n) as u8
    } else {
        (55 + n) as u8
    }
}

/// The twelve identifier bytes rendered in the response: each hardware word
/// big-endian, highest word first.
pub open spec fn spec_id_bytes(id: DeviceId) -> Seq<u8> {
    seq![
        ((id.id3 >> 24) & 0xff) as u8,
        ((id.id3 >> 16) & 0xff) as u8,
        ((id.id3 >> 8) & 0xff) as u8,
        (id.id3 & 0xff) as u8,
        ((id.id2 >> 24) & 0xff) as u8,
        ((id.id2 >> 16) & 0xff) as u8,
        ((id.id2 >> 8) & 0xff) as u8,
        (id.id2 & 0xff) as u8,
        ((id.id1 >> 24) & 0xff) as u8,
        ((id.id1 >> 16) & 0xff) as u8,
        ((id.id1 >> 8) & 0xff) as u8,
        (id.id1 & 0xff) as u8,
    ]
}

/// The device identifier as 24 ASCII hex digits: for each byte its high
/// nibble's digit, then its low nibble's digit.
pub open spec fn spec_hex_id(id: DeviceId) -> Seq<u8> {
    Seq::new(
        24,
        |i: int|
            if i % 2 == 0 {
                hex_digit(((spec_id_bytes(id)[i / 2] as u8) >> 4) & 0x0F)
            } else {
                hex_digit((spec_id_bytes(id)[i / 2] as u8) & 0x0F)
            },
    )
}

/// One nibble as an ASCII hex digit.
fn hex_digit_of(n: u8) -> (r: u8)
    requires
        n < 16,
    ensures
        r == hex_digit(n),
{
    if n < 10 {
        48 + n
    } else {
        55 + n
    }
}

/// Render the device's unique identifier as 24 ASCII hex digits.
pub fn get_hex_id(id: &DeviceId) -> (r: Vec<u8>)
    ensures
        r@ =~= spec_hex_id(*id),
        r@.len() == 24,
{
    let bytes: [u8; 12] = [
        byte_of(id.id3, 24),
        byte_of(id.id3, 16),
        byte_of(id.id3, 8),
        byte_of(id.id3, 0),
        byte_of(id.id2, 24),
        byte_of(id.id2, 16),
        byte_of(id.id2, 8),
        byte_of(id.id2, 0),
        byte_of(id.id1, 24),
        byte_of(id.id1, 16),
        byte_of(id.id1, 8),
        byte_of(id.id1, 0),
    ];
    proof {
        assert(bytes@ =~= spec_id_bytes(*id));
    }
    let mut out: Vec<u8> = Vec::new();
    let mut i: usize = 0;
    while i < 12
        invariant
            i <= 12,
            bytes@ =~= spec_id_bytes(*id),
            out@ =~= spec_hex_id(*id).take(2 * i),
        decreases 12 - i,
    {
        let v = bytes[i];
        let hi = (v & 0xF0) >> 4;
        let lo = v & 0x0F;
        proof {
            assert((v & 0xF0) >> 4 < 16 && v & 0x0F < 16 && ((v & 0xF0) >> 4) == ((v >> 4)
                & 0x0F)) by (bit_vector);
        }
        out.push(hex_digit_of(hi));
        out.push(hex_digit_of(lo));
        proof {
            assert(out@ =~= spec_hex_id(*id).take(2 * i + 2));
        }
        i = i + 1;
    }
    out
}

/// The ASCII banner the information response carries after its status word.
pub open spec fn spec_banner(
    pkg_version: &str,
    git_version: &str,
    built_time_utc: &str,
    rustc_version: &str,
    id: DeviceId,
) -> Seq<u8> {
    "blethrs ".spec_bytes() + pkg_version.spec_bytes() + " ".spec_bytes()
        + git_version.spec_bytes() + "\r\nBuilt: ".spec_bytes() + built_time_utc.spec_bytes()
        + "\r\nCompiler: ".spec_bytes() + rustc_version.spec_bytes() + "\r\nMCU ID: ".spec_bytes()
        + spec_hex_id(id) + "\r\n".spec_bytes()
}

/// Respond to the information request: a success status, then the build
/// banner with the device identifier.
pub fn info(build_info: &BuildInfo, id: &DeviceId, conn: &mut Connection)
    ensures
        final(conn).rx == old(conn).rx,
        final(conn).tx@ =~= old(conn).tx@ + word_to_bytes(0) + spec_banner(
            build_info.pkg_version,
            build_info.git_version,
            build_info.built_time_utc,
            build_info.rustc_version,
            *id,
        ),
{
    send_status(conn, Error::Success);
    conn.tx.extend_from_slice("blethrs ".as_bytes());
    conn.tx.extend_from_slice(build_info.pkg_version.as_bytes());
    conn.tx.extend_from_slice(" ".as_bytes());
    conn.tx.extend_from_slice(build_info.git_version.as_bytes());
    conn.tx.extend_from_slice("\r\nBuilt: ".as_bytes());
    conn.tx.extend_from_slice(build_info.built_time_utc.as_bytes());
    conn.tx.extend_from_slice("\r\nCompiler: ".as_bytes());
    conn.tx.extend_from_slice(build_info.rustc_version.as_bytes());
    conn.tx.extend_from_slice("\r\nMCU ID: ".as_bytes());
    let hex = get_hex_id(id);
    conn.tx.extend_from_slice(hex.as_slice());
    conn.tx.extend_from_slice("\r\n".as_bytes());
}

/// The bytes the read request appends to the response queue: a success
/// status followed by the raw bytes on success, the error status alone on a
/// rejected range, an internal-error status when the flash peripheral has
/// not been handed over.
pub open spec fn spec_read_response(flash: Option<FlashBank>, rx: Seq<u8>) -> Seq<u8> {
    let adr = spec_rx_word(rx);
    let len = spec_rx_word(drop4(rx)) as int;
    if flash is None {
        word_to_bytes(Error::InternalError.spec_code())
    } else if valid_range(adr, len) {
        word_to_bytes(0) + flash->0.mem@.subrange(bank_off(adr), bank_off(adr) + len)
    } else {
        word_to_bytes(spec_check_address(adr, len)->Err_0.spec_code())
    }
}

/// Respond to the read request: address and length, then the flash bytes or
/// the rejection status.
pub fn read(flash: &Option<FlashBank>, conn: &mut Connection)
    requires
        flash is Some ==> flash->0.wf(),
    ensures
        final(conn).rx@ =~= drop4(drop4(old(conn).rx@)),
        final(conn).tx@ =~= old(conn).tx@ + spec_read_response(*flash, old(conn).rx@),
{
    let (adr, len) = read_adr_len(conn);
    match flash {
        Some(bank) => match bank.read(adr, len) {
            Ok(data) => {
                send_status(conn, Error::Success);
                conn.tx.extend_from_slice(data.as_slice());
            },
            Err(err) => send_status(conn, err),
        },
        None => send_status(conn, Error::InternalError),
    }
}

/// The status word the erase request answers with.
pub open spec fn spec_erase_status(flash: Option<FlashBank>, rx: Seq<u8>) -> Seq<u8> {
    let adr = spec_rx_word(rx);
    let len = spec_rx_word(drop4(rx)) as int;
    if flash is None {
        word_to_bytes(Error::InternalError.spec_code())
    } else if valid_range(adr, len) {
        word_to_bytes(0)
    } else {
        word_to_bytes(spec_check_address(adr, len)->Err_0.spec_code())
    }
}

/// Respond to the erase request: address and length, then the sectors the
/// range touches are erased and the resulting status answered.
pub fn erase(flash: &mut Option<FlashBank>, conn: &mut Connection)
    requires
        (*old(flash)) is Some ==> (*old(flash))->0.wf(),
    ensures
        final(conn).rx@ =~= drop4(drop4(old(conn).rx@)),
        final(conn).tx@ =~= old(conn).tx@ + spec_erase_status(*old(flash), old(conn).rx@),
        (*final(flash)) is Some <==> (*old(flash)) is Some,
        (*final(flash)) is Some ==> (*final(flash))->0.wf(),
        ({
            let adr = spec_rx_word(old(conn).rx@);
            let len = spec_rx_word(drop4(old(conn).rx@)) as int;
            if (*old(flash)) is Some && valid_range(adr, len) {
                (*final(flash))->0.mem@ =~= erased_mem((*old(flash))->0.mem@, adr, len)
                    && (*final(flash))->0.locked
            } else {
                *final(flash) == *old(flash)
            }
        }),
{
    let (adr, len) = read_adr_len(conn);
    match flash {
        Some(bank) => match bank.erase(adr, len) {
            Ok(()) => send_status(conn, Error::Success),
            Err(err) => send_status(conn, err),
        },
        None => send_status(conn, Error::InternalError),
    }
}

/// The payload of a write request: exactly the announced number of bytes
/// after the address and length words, or whatever shorter remainder the
/// request holds.
pub open spec fn spec_write_payload(rx: Seq<u8>) -> Seq<u8> {
    take_at_most(drop4(drop4(rx)), spec_rx_word(drop4(rx)) as int)
}

/// The status word the write request answers with.
pub open spec fn spec_write_status(flash: Option<FlashBank>, rx: Seq<u8>) -> Seq<u8> {
    let adr = spec_rx_word(rx);
    let len = spec_rx_word(drop4(rx)) as int;
    if flash is None {
        word_to_bytes(Error::InternalError.spec_code())
    } else {
        match spec_write_result(adr, len, spec_write_payload(rx).len() as int) {
            Ok(_) => word_to_bytes(0),
            Err(e) => word_to_bytes(e.spec_code()),
        }
    }
}

/// Respond to the write request: address and length, then exactly that
/// many request bytes are the payload programmed into flash, and the
/// resulting status is answered. A request holding fewer bytes than
/// announced is refused; trailing bytes stay unread.
pub fn write(flash: &mut Option<FlashBank>, conn: &mut Connection)
    requires
        (*old(flash)) is Some ==> (*old(flash))->0.wf(),
    ensures
        final(conn).rx@ =~= skip_at_most(
            drop4(drop4(old(conn).rx@)),
            spec_rx_word(drop4(old(conn).rx@)) as int,
        ),
        final(conn).tx@ =~= old(conn).tx@ + spec_write_status(*old(flash), old(conn).rx@),
        (*final(flash)) is Some <==> (*old(flash)) is Some,
        (*final(flash)) is Some ==> (*final(flash))->0.wf(),
        ({
            let adr = spec_rx_word(old(conn).rx@);
            let len = spec_rx_word(drop4(old(conn).rx@)) as int;
            let payload = spec_write_payload(old(conn).rx@);
            if (*old(flash)) is Some && spec_write_result(adr, len, payload.len() as int) is Ok {
                (*final(flash))->0.mem@ =~= store_bytes((*old(flash))->0.mem@, bank_off(adr), payload)
                    && (*final(flash))->0.locked
            } else {
                *final(flash) == *old(flash)
            }
        }),
{
    let (adr, len) = read_adr_len(conn);
    let payload = conn.recv_bytes(len);
    match flash {
        Some(bank) => match bank.write(adr, len, &payload) {
            Ok(()) => send_status(conn, Error::Success),
            Err(err) => send_status(conn, err),
        },
        None => send_status(conn, Error::InternalError),
    }
}

/// Respond to the reboot request: the success status is answered at once;
/// arming the deferred reset is the caller's part.
pub fn boot(conn: &mut Connection)
    ensures
        final(conn).rx == old(conn).rx,
        final(conn).tx@ =~= old(conn).tx@ + word_to_bytes(0),
{
    send_status(conn, Error::Success);
}

/// Dispatch one received command word. A recognized command is answered on
/// the connection; the reboot request alone answers `true`, telling the
/// caller to arm the deferred reset. An unrecognized code is refused with
/// nothing sent — the connection is simply closed.
pub fn handle_and_respond(
    cmd: u32,
    build_info: &BuildInfo,
    id: &DeviceId,
    flash: &mut Option<FlashBank>,
    conn: &mut Connection,
) -> (r: Result<bool, UnknownCommand>)
    requires
        (*old(flash)) is Some ==> (*old(flash))->0.wf(),
    ensures
        (*final(flash)) is Some <==> (*old(flash)) is Some,
        (*final(flash)) is Some ==> (*final(flash))->0.wf(),
        r is Ok <==> cmd <= 4,
        r is Ok ==> (r->Ok_0 <==> cmd == BOOT),
        cmd == INFO ==> final(conn).rx == old(conn).rx && final(conn).tx@ =~= old(conn).tx@
            + word_to_bytes(0) + spec_banner(
            build_info.pkg_version,
            build_info.git_version,
            build_info.built_time_utc,
            build_info.rustc_version,
            *id,
        ) && *final(flash) == *old(flash),
        cmd == READ ==> final(conn).tx@ =~= old(conn).tx@ + spec_read_response(
            *old(flash),
            old(conn).rx@,
        ) && *final(flash) == *old(flash),
        cmd == ERASE ==> final(conn).tx@ =~= old(conn).tx@ + spec_erase_status(
            *old(flash),
            old(conn).rx@,
        ) && ({
            let adr = spec_rx_word(old(conn).rx@);
            let len = spec_rx_word(drop4(old(conn).rx@)) as int;
            if (*old(flash)) is Some && valid_range(adr, len) {
                (*final(flash))->0.mem@ =~= erased_mem((*old(flash))->0.mem@, adr, len)
            } else {
                *final(flash) == *old(flash)
            }
        }),
        cmd == WRITE ==> final(conn).tx@ =~= old(conn).tx@ + spec_write_status(
            *old(flash),
            old(conn).rx@,
        ) && ({
            let adr = spec_rx_word(old(conn).rx@);
            let len = spec_rx_word(drop4(old(conn).rx@)) as int;
            let payload = spec_write_payload(old(conn).rx@);
            if (*old(flash)) is Some && spec_write_result(adr, len, payload.len() as int) is Ok {
                (*final(flash))->0.mem@ =~= store_bytes((*old(flash))->0.mem@, bank_off(adr), payload)
            } else {
                *final(flash) == *old(flash)
            }
        }),
        cmd == BOOT ==> final(conn).rx == old(conn).rx && final(conn).tx@ =~= old(conn).tx@
            + word_to_bytes(0) && *final(flash) == *old(flash),
        cmd > 4 ==> *final(conn) == *old(conn) && *final(flash) == *old(flash),
{
    match cmd {
        0 => info(build_info, id, conn),
        1 => read(flash, conn),
        2 => erase(flash, conn),
        3 => write(flash, conn),
        4 => {
            boot(conn);
            return Ok(true);
        },
        _ => {
            return Err(UnknownCommand);
        },
    };
    Ok(false)
}

/// The socket housekeeping one poll performs, decided from the socket's
/// state flags.
#[derive(Clone, Copy, Debug, PartialEq, Eq, Structural)]
pub struct PollPlan {
    /// The socket is closed: put it back to listening on the fixed port.
    pub listen: bool,
    /// The peer is gone but the send side lingers: close the socket.
    pub close_half_open: bool,
    /// A request is waiting: serve one command, then close.
    pub serve: bool,
}

/// What a poll does with the listener socket: re-listen when it fell
/// closed, close a half-open connection, and serve a command exactly when
/// request bytes are waiting.
pub fn poll_plan(is_open: bool, may_recv: bool, may_send: bool, can_recv: bool) -> (r: PollPlan)
    ensures
        r.listen == !is_open,
        r.close_half_open == (!may_recv && may_send),
        r.serve == can_recv,
{
    PollPlan { listen: !is_open, close_half_open: !may_recv && may_send, serve: can_recv }
}

/// Serve one waiting request: consume the leading command word, dispatch
/// it, and on a reboot request arm the deferred reset so the response can
/// leave the transmit buffer first.
pub fn handle_tcp(
    conn: &mut Connection,
    build_info: &BuildInfo,
    id: &DeviceId,
    flash: &mut Option<FlashBank>,
    reset_ms: &mut Option<u32>,
)
    requires
        (*old(flash)) is Some ==> (*old(flash))->0.wf(),
    ensures
        (*final(flash)) is Some <==> (*old(flash)) is Some,
        (*final(flash)) is Some ==> (*final(flash))->0.wf(),
        ({
            let cmd = spec_rx_word(old(conn).rx@);
            let body = drop4(old(conn).rx@);
            &&& (cmd == INFO ==> final(conn).tx@ =~= old(conn).tx@ + word_to_bytes(0)
                + spec_banner(
                build_info.pkg_version,
                build_info.git_version,
                build_info.built_time_utc,
                build_info.rustc_version,
                *id,
            ) && *final(flash) == *old(flash))
            &&& (cmd == READ ==> final(conn).tx@ =~= old(conn).tx@ + spec_read_response(
                *old(flash),
                body,
            ) && *final(flash) == *old(flash))
            &&& (cmd == ERASE ==> final(conn).tx@ =~= old(conn).tx@ + spec_erase_status(
                *old(flash),
                body,
            ) && ({
                let adr = spec_rx_word(body);
                let len = spec_rx_word(drop4(body)) as int;
                if (*old(flash)) is Some && valid_range(adr, len) {
                    (*final(flash))->0.mem@ =~= erased_mem((*old(flash))->0.mem@, adr, len)
                } else {
                    *final(flash) == *old(flash)
                }
            }))
            &&& (cmd == WRITE ==> final(conn).tx@ =~= old(conn).tx@ + spec_write_status(
                *old(flash),
                body,
            ) && ({
                let adr = spec_rx_word(body);
                let len = spec_rx_word(drop4(body)) as int;
                let payload = spec_write_payload(body);
                if (*old(flash)) is Some && spec_write_result(adr, len, payload.len() as int)
                    is Ok {
                    (*final(flash))->0.mem@ =~= store_bytes(
                        (*old(flash))->0.mem@,
                        bank_off(adr),
                        payload,
                    )
                } else {
                    *final(flash) == *old(flash)
                }
            }))
            &&& (cmd == BOOT ==> final(conn).tx@ =~= old(conn).tx@ + word_to_bytes(0))
            &&& (cmd > 4 ==> final(conn).tx == old(conn).tx && *final(flash) == *old(flash))
            &&& *final(reset_ms) == (if cmd == BOOT {
                Some(RESET_DELAY_MS)
            } else {
                *old(reset_ms)
            })
        }),
{
    let cmd = conn.recv_u32();
    match handle_and_respond(cmd, build_info, id, flash, conn) {
        Ok(reboot) => {
            if reboot {
                *reset_ms = Some(RESET_DELAY_MS);
            }
        },
        Err(UnknownCommand) => {},
    }
}

} // verus!
