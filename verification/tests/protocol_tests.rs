use blethrs::cmd::{BuildInfo, Command, Connection, DeviceId, get_hex_id, handle_and_respond,
    handle_tcp};
use blethrs::flash::{FlashBank, FLASH_USER};
use blethrs::Error;

fn build_info() -> BuildInfo<'static> {
    BuildInfo {
        pkg_version: "1.0.0",
        git_version: "0123abc",
        built_time_utc: "2020-01-01T00:00:00Z",
        rustc_version: "rustc 1.40.0",
    }
}

fn device_id() -> DeviceId {
    DeviceId { id1: 0x0000_0001, id2: 0x89AB_CDEF, id3: 0x0123_4567 }
}

fn request(cmd: u32, body: &[u8]) -> Vec<u8> {
    let mut r = cmd.to_le_bytes().to_vec();
    r.extend_from_slice(body);
    r
}

fn serve(req: Vec<u8>, flash: &mut Option<FlashBank>) -> (Vec<u8>, Option<u32>) {
    let mut conn = Connection::new(req);
    let mut reset_ms: Option<u32> = None;
    let bi = build_info();
    let id = device_id();
    handle_tcp(&mut conn, &bi, &id, flash, &mut reset_ms);
    (conn.tx, reset_ms)
}

#[test]
fn info_returns_success_and_a_banner() {
    let mut flash = Some(FlashBank::new());
    let (tx, reset) = serve(request(0, &[]), &mut flash);
    assert!(tx.len() > 4);
    assert_eq!(&tx[0..4], &[0, 0, 0, 0]);
    let banner = String::from_utf8(tx[4..].to_vec()).unwrap();
    assert!(banner.contains("blethrs"));
    assert!(banner.contains("1.0.0"));
    assert!(banner.contains("0123456789ABCDEF00000001"));
    assert_eq!(reset, None);
}

#[test]
fn write_then_read_round_trips_over_the_wire() {
    let mut flash = Some(FlashBank::new());
    let addr = FLASH_USER;

    let mut body = addr.to_le_bytes().to_vec();
    body.extend_from_slice(&8u32.to_le_bytes());
    body.extend_from_slice(&[0xAA; 8]);
    let (tx, _) = serve(request(3, &body), &mut flash);
    assert_eq!(tx, vec![0, 0, 0, 0]);

    let mut body = addr.to_le_bytes().to_vec();
    body.extend_from_slice(&8u32.to_le_bytes());
    let (tx, _) = serve(request(1, &body), &mut flash);
    let mut expected = vec![0, 0, 0, 0];
    expected.extend_from_slice(&[0xAA; 8]);
    assert_eq!(tx, expected);
}

#[test]
fn read_with_length_3_returns_only_the_status() {
    let mut flash = Some(FlashBank::new());
    let mut body = FLASH_USER.to_le_bytes().to_vec();
    body.extend_from_slice(&3u32.to_le_bytes());
    let (tx, _) = serve(request(1, &body), &mut flash);
    // LengthNotMultiple4 has wire code 2; no payload follows.
    assert_eq!(tx, vec![2, 0, 0, 0]);
}

#[test]
fn erase_command_reports_status_only() {
    let mut flash = Some(FlashBank::new());
    let mut body = FLASH_USER.to_le_bytes().to_vec();
    body.extend_from_slice(&16u32.to_le_bytes());
    let (tx, _) = serve(request(2, &body), &mut flash);
    assert_eq!(tx, vec![0, 0, 0, 0]);

    let mut body = 0x0800_0000u32.to_le_bytes().to_vec();
    body.extend_from_slice(&16u32.to_le_bytes());
    let (tx, _) = serve(request(2, &body), &mut flash);
    // InvalidAddress has wire code 1.
    assert_eq!(tx, vec![1, 0, 0, 0]);
}

#[test]
fn write_with_short_payload_reports_data_length_incorrect() {
    let mut flash = Some(FlashBank::new());
    let mut body = FLASH_USER.to_le_bytes().to_vec();
    body.extend_from_slice(&8u32.to_le_bytes());
    body.extend_from_slice(&[0xAA; 4]);
    let (tx, _) = serve(request(3, &body), &mut flash);
    // DataLengthIncorrect has wire code 4.
    assert_eq!(tx, vec![4, 0, 0, 0]);
}

#[test]
fn write_reads_exactly_the_announced_payload() {
    let mut flash = Some(FlashBank::new());
    // Eight payload bytes announced, followed by trailing garbage: the
    // trailing bytes are not part of the payload and the write succeeds.
    let mut body = FLASH_USER.to_le_bytes().to_vec();
    body.extend_from_slice(&8u32.to_le_bytes());
    body.extend_from_slice(&[0x55; 8]);
    body.extend_from_slice(&[0xDE, 0xAD]);
    let (tx, _) = serve(request(3, &body), &mut flash);
    assert_eq!(tx, vec![0, 0, 0, 0]);

    let mut body = FLASH_USER.to_le_bytes().to_vec();
    body.extend_from_slice(&8u32.to_le_bytes());
    let (tx, _) = serve(request(1, &body), &mut flash);
    let mut expected = vec![0, 0, 0, 0];
    expected.extend_from_slice(&[0x55; 8]);
    assert_eq!(tx, expected);
}

#[test]
fn boot_answers_success_and_arms_the_reset() {
    let mut flash = Some(FlashBank::new());
    let (tx, reset) = serve(request(4, &[]), &mut flash);
    assert_eq!(tx, vec![0, 0, 0, 0]);
    assert_eq!(reset, Some(50));
}

#[test]
fn unknown_commands_are_silently_ignored() {
    let mut flash = Some(FlashBank::new());
    let (tx, reset) = serve(request(7, &[]), &mut flash);
    assert!(tx.is_empty());
    assert_eq!(reset, None);
}

#[test]
fn missing_flash_peripheral_reports_internal_error() {
    let mut flash: Option<FlashBank> = None;
    let mut body = FLASH_USER.to_le_bytes().to_vec();
    body.extend_from_slice(&16u32.to_le_bytes());
    let (tx, _) = serve(request(2, &body), &mut flash);
    // InternalError has wire code 9.
    assert_eq!(tx, vec![9, 0, 0, 0]);
}

#[test]
fn handle_and_respond_reports_reboot_and_unknown() {
    let mut flash = Some(FlashBank::new());
    let bi = build_info();
    let id = device_id();
    let mut conn = Connection::new(Vec::new());
    assert_eq!(handle_and_respond(4, &bi, &id, &mut flash, &mut conn).ok(), Some(true));
    let mut conn = Connection::new(Vec::new());
    assert_eq!(handle_and_respond(0, &bi, &id, &mut flash, &mut conn).ok(), Some(false));
    let mut conn = Connection::new(Vec::new());
    assert!(handle_and_respond(9, &bi, &id, &mut flash, &mut conn).is_err());
    assert!(conn.tx.is_empty());
}

#[test]
fn poll_housekeeping_follows_the_socket_state() {
    let p = blethrs::cmd::poll_plan(false, false, false, false);
    assert!(p.listen && !p.close_half_open && !p.serve);
    // Peer closed its side while we can still send: close.
    let p = blethrs::cmd::poll_plan(true, false, true, false);
    assert!(!p.listen && p.close_half_open && !p.serve);
    // A request is waiting.
    let p = blethrs::cmd::poll_plan(true, true, true, true);
    assert!(!p.listen && !p.close_half_open && p.serve);
    assert_eq!(blethrs::cmd::TCP_PORT, 7777);
}

#[test]
fn hex_id_renders_all_three_words_big_endian() {
    let hex = get_hex_id(&device_id());
    assert_eq!(String::from_utf8(hex).unwrap(), "0123456789ABCDEF00000001");
}

#[test]
fn command_codes_decode_exactly() {
    assert!(matches!(Command::try_from(0), Ok(Command::Info)));
    assert!(matches!(Command::try_from(1), Ok(Command::Read)));
    assert!(matches!(Command::try_from(2), Ok(Command::Erase)));
    assert!(matches!(Command::try_from(3), Ok(Command::Write)));
    assert!(matches!(Command::try_from(4), Ok(Command::Boot)));
    assert!(Command::try_from(5).is_err());
}

#[test]
fn error_codes_decode_exactly() {
    for (code, err) in [
        (0u32, Error::Success),
        (1, Error::InvalidAddress),
        (2, Error::LengthNotMultiple4),
        (3, Error::LengthTooLong),
        (4, Error::DataLengthIncorrect),
        (5, Error::EraseError),
        (6, Error::WriteError),
        (7, Error::FlashError),
        (8, Error::NetworkError),
        (9, Error::InternalError),
    ] {
        assert_eq!(Error::try_from(code).ok(), Some(err));
        assert_eq!(err.code(), code);
    }
    assert!(Error::try_from(10).is_err());
}
