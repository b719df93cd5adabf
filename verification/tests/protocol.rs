//! Codec-level tests: framing, typed fields, decimal text, message codes.

use remote_debugger::decimal::{parse_u32_decimal, u32_to_decimal};
use remote_debugger::message::{ClientMessageKind, ServerMessageKind, SuspendReason};
use remote_debugger::serialize::DebugBuilder;

fn send_to_vec(b: DebugBuilder) -> Vec<u8> {
    let mut out = Vec::new();
    b.send(&mut out);
    out
}

#[test]
fn frame_length_prefix_counts_payload_bytes() {
    let mut b = DebugBuilder::new(ServerMessageKind::DebuggerOption);
    b.add(0xDEADBEEFu32);
    b.add("ab");
    let bytes = send_to_vec(b);
    // payload: 4 bytes of the integer, then "ab" and its NUL
    assert_eq!(&bytes[0..4], &[7, 0, 0, 0]);
    assert_eq!(&bytes[4..8], &[0x20, 0, 0, 0]);
    assert_eq!(&bytes[8..12], &[0xEF, 0xBE, 0xAD, 0xDE]);
    assert_eq!(&bytes[12..15], b"ab\x00");
    assert_eq!(bytes.len(), 8 + 7);
}

#[test]
fn empty_payload_frame() {
    let b = DebugBuilder::new(ServerMessageKind::SwfImage);
    let bytes = send_to_vec(b);
    assert_eq!(bytes, vec![0, 0, 0, 0, 0x22, 0, 0, 0]);
}

#[test]
fn typed_fields_serialize_little_endian() {
    let mut b = DebugBuilder::new(ServerMessageKind::SwfInfo);
    b.add(0x0102u16);
    b.add(5u8);
    b.add(true);
    b.add(false);
    b.add(0x0A0B0C0Dusize);
    let bytes = send_to_vec(b);
    assert_eq!(&bytes[8..10], &[0x02, 0x01]);
    assert_eq!(bytes[10], 5);
    assert_eq!(bytes[11], 1);
    assert_eq!(bytes[12], 0);
    assert_eq!(&bytes[13..21], &[0x0D, 0x0C, 0x0B, 0x0A, 0, 0, 0, 0]);
}

#[test]
fn byte_string_field_keeps_bytes_and_appends_nul() {
    let mut b = DebugBuilder::new(ServerMessageKind::MovieAttribute);
    let raw: &[u8] = &[1, 2, 255];
    b.add(raw);
    let bytes = send_to_vec(b);
    assert_eq!(&bytes[8..12], &[1, 2, 255, 0]);
}

#[test]
fn decimal_prints_exact_digits() {
    assert_eq!(u32_to_decimal(0), b"0".to_vec());
    assert_eq!(u32_to_decimal(7), b"7".to_vec());
    assert_eq!(u32_to_decimal(1000), b"1000".to_vec());
    assert_eq!(u32_to_decimal(4294967295), b"4294967295".to_vec());
}

#[test]
fn decimal_parses_like_the_standard_parser() {
    assert_eq!(parse_u32_decimal(b"0"), Some(0));
    assert_eq!(parse_u32_decimal(b"1000"), Some(1000));
    assert_eq!(parse_u32_decimal(b"+07"), Some(7));
    assert_eq!(parse_u32_decimal(b"4294967295"), Some(4294967295));
    assert_eq!(parse_u32_decimal(b"4294967296"), None);
    assert_eq!(parse_u32_decimal(b""), None);
    assert_eq!(parse_u32_decimal(b"+"), None);
    assert_eq!(parse_u32_decimal(b"12x"), None);
    assert_eq!(parse_u32_decimal(b"-1"), None);
    assert_eq!(parse_u32_decimal(b" 1"), None);
}

#[test]
fn client_codes_decode_to_their_kinds() {
    assert_eq!(ClientMessageKind::from_u32(0x0F), Some(ClientMessageKind::Continue));
    assert_eq!(ClientMessageKind::from_u32(0x18), Some(ClientMessageKind::SetSquelch));
    assert_eq!(ClientMessageKind::from_u32(0x1B), Some(ClientMessageKind::GetDebugOption));
    assert_eq!(ClientMessageKind::from_u32(0x1C), Some(ClientMessageKind::SetDebugOption));
    assert_eq!(ClientMessageKind::from_u32(0x26), Some(ClientMessageKind::GetInfo));
    assert_eq!(ClientMessageKind::from_u32(0x20), Some(ClientMessageKind::GetContent));
    assert_eq!(ClientMessageKind::from_u32(0x21), Some(ClientMessageKind::GetDebugContent));
    assert_eq!(ClientMessageKind::from_u32(0x32), Some(ClientMessageKind::RemoveWatch2));
    assert_eq!(ClientMessageKind::from_u32(0x29), None);
    assert_eq!(ClientMessageKind::from_u32(0x30), None);
    assert_eq!(ClientMessageKind::from_u32(0x33), None);
}

#[test]
fn server_codes_match_the_protocol() {
    assert_eq!(ServerMessageKind::SetVersion.to_u32(), 0x1A);
    assert_eq!(ServerMessageKind::Continue.to_u32(), 0x11);
    assert_eq!(ServerMessageKind::Squelch.to_u32(), 0x1D);
    assert_eq!(ServerMessageKind::DebuggerOption.to_u32(), 0x20);
    assert_eq!(ServerMessageKind::MovieAttribute.to_u32(), 0x0C);
    assert_eq!(ServerMessageKind::NumSwdEntries.to_u32(), 0x14);
    assert_eq!(ServerMessageKind::SwfInfo.to_u32(), 0x2A);
    assert_eq!(ServerMessageKind::SwfImage.to_u32(), 0x22);
    assert_eq!(ServerMessageKind::SwdImage.to_u32(), 0x23);
    assert_eq!(ServerMessageKind::SuspendReason.to_u32(), 0x28);
}

#[test]
fn suspend_reason_codes_match_the_protocol() {
    assert_eq!(SuspendReason::Unknown.to_u16(), 0);
    assert_eq!(SuspendReason::Breakpoint.to_u16(), 1);
    assert_eq!(SuspendReason::Watch.to_u16(), 2);
    assert_eq!(SuspendReason::Fault.to_u16(), 3);
    assert_eq!(SuspendReason::StopRequest.to_u16(), 4);
    assert_eq!(SuspendReason::Step.to_u16(), 5);
    assert_eq!(SuspendReason::Halt.to_u16(), 6);
    assert_eq!(SuspendReason::ScriptLoaded.to_u16(), 7);
}
