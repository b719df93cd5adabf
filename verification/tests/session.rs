//! End-to-end session tests: the handshake, the packet loop, the handlers
//! and the suspend notifications, against literal wire bytes.

use remote_debugger::callstack::{CallNode, CallStack};
use remote_debugger::debugger::{MovieHandle, RemoteDebuggerBackend};
use remote_debugger::swd::{SwdEntry, SwdSymbols};

fn frame(kind: u32, payload: &[u8]) -> Vec<u8> {
    let mut f = Vec::new();
    f.extend_from_slice(&(payload.len() as u32).to_le_bytes());
    f.extend_from_slice(&kind.to_le_bytes());
    f.extend_from_slice(payload);
    f
}

fn connected_session() -> RemoteDebuggerBackend {
    let mut dbg = RemoteDebuggerBackend::new(String::from("movie.swf"), None);
    let mut out = Vec::new();
    assert!(dbg.connect("hunter2", &mut out));
    dbg
}

/// Feed one whole packet (header, then body) through the loop and collect
/// the replies and the final resume flag.
fn deliver(dbg: &mut RemoteDebuggerBackend, kind: u32, body: &[u8]) -> (Vec<u8>, Option<bool>) {
    let mut out = Vec::new();
    let mut header = Vec::new();
    header.extend_from_slice(&(body.len() as u32).to_le_bytes());
    header.extend_from_slice(&kind.to_le_bytes());
    assert_eq!(dbg.expected_read_len(), 8);
    assert_eq!(dbg.tick(Some(header), &mut out), Some(false));
    assert_eq!(out, Vec::<u8>::new());
    assert_eq!(dbg.expected_read_len(), body.len());
    let r = dbg.tick(Some(body.to_vec()), &mut out);
    (out, r)
}

#[test]
fn handshake_writes_version_movie_and_password() {
    let mut dbg = RemoteDebuggerBackend::new(String::from("movie.swf"), None);
    let mut out = Vec::new();
    assert!(dbg.connect("hunter2", &mut out));
    let mut expected = frame(0x1A, &[0x0F, 0, 0, 0]);
    expected.extend_from_slice(&frame(0x0C, b"movie\x00movie.swf\x00"));
    expected.extend_from_slice(&frame(0x0C, b"password\x00hunter2\x00"));
    assert_eq!(out, expected);
    assert_eq!(
        &out[0..12],
        &[0x04, 0x00, 0x00, 0x00, 0x1A, 0x00, 0x00, 0x00, 0x0F, 0x00, 0x00, 0x00]
    );
}

#[test]
fn detached_session_reports_no_progress() {
    let mut dbg = RemoteDebuggerBackend::new(String::from("movie.swf"), None);
    let mut out = Vec::new();
    assert_eq!(dbg.tick(Some(vec![0; 8]), &mut out), None);
    assert_eq!(out, Vec::<u8>::new());
}

#[test]
fn would_block_leaves_state_unchanged() {
    let mut dbg = connected_session();
    let mut out = Vec::new();
    assert_eq!(dbg.tick(None, &mut out), None);
    assert_eq!(dbg.expected_read_len(), 8);
    assert_eq!(out, Vec::<u8>::new());
}

#[test]
fn set_squelch_echoes_flag_and_sets_state() {
    let mut dbg = connected_session();
    let (out, r) = deliver(&mut dbg, 0x18, &[0x01, 0x00, 0x00, 0x00]);
    assert_eq!(r, Some(false));
    assert_eq!(
        out,
        vec![0x04, 0x00, 0x00, 0x00, 0x1D, 0x00, 0x00, 0x00, 0x01, 0x00, 0x00, 0x00]
    );
    assert!(dbg.squelch);
}

#[test]
fn set_squelch_nonzero_is_reported_as_one() {
    let mut dbg = connected_session();
    let (out, r) = deliver(&mut dbg, 0x18, &[0x07, 0x00, 0x00, 0x01]);
    assert_eq!(r, Some(false));
    assert_eq!(out, frame(0x1D, &[1, 0, 0, 0]));
    assert!(dbg.squelch);
}

#[test]
fn set_then_get_option_round_trips() {
    let mut dbg = connected_session();
    let (out, r) = deliver(&mut dbg, 0x1C, b"break_on_fault\x00on\x00");
    assert_eq!(r, Some(false));
    assert_eq!(out, frame(0x20, b"break_on_fault\x00true\x00"));
    assert!(dbg.properties.break_on_fault);
    let (out2, r2) = deliver(&mut dbg, 0x1B, b"break_on_fault\x00");
    assert_eq!(r2, Some(false));
    assert_eq!(out2, frame(0x20, b"break_on_fault\x00true\x00"));
}

#[test]
fn malformed_switch_leaves_option_unchanged() {
    let mut dbg = connected_session();
    let (out, r) = deliver(&mut dbg, 0x1C, b"break_on_fault\x00yes\x00");
    assert_eq!(r, Some(false));
    assert_eq!(out, Vec::<u8>::new());
    assert!(!dbg.properties.break_on_fault);
    let (out2, _) = deliver(&mut dbg, 0x1B, b"break_on_fault\x00");
    assert_eq!(out2, frame(0x20, b"break_on_fault\x00false\x00"));
}

#[test]
fn switch_off_resets_option() {
    let mut dbg = connected_session();
    deliver(&mut dbg, 0x1C, b"invoke_setters\x00on\x00");
    assert!(dbg.properties.invoke_setters);
    let (out, _) = deliver(&mut dbg, 0x1C, b"invoke_setters\x00off\x00");
    assert_eq!(out, frame(0x20, b"invoke_setters\x00false\x00"));
    assert!(!dbg.properties.invoke_setters);
}

#[test]
fn timeout_option_parses_and_echoes_decimal() {
    let mut dbg = connected_session();
    let (out, r) = deliver(&mut dbg, 0x1C, b"getter_timeout\x001000\x00");
    assert_eq!(r, Some(false));
    assert_eq!(out, frame(0x20, b"getter_timeout\x001000\x00"));
    assert_eq!(dbg.properties.getter_timeout, 1000);
    let (out2, _) = deliver(&mut dbg, 0x1B, b"getter_timeout\x00");
    assert_eq!(out2, frame(0x20, b"getter_timeout\x001000\x00"));
}

#[test]
fn timeout_option_rejects_bad_numbers() {
    let mut dbg = connected_session();
    let (out, r) = deliver(&mut dbg, 0x1C, b"setter_timeout\x0012x\x00");
    assert_eq!(r, Some(false));
    assert_eq!(out, Vec::<u8>::new());
    assert_eq!(dbg.properties.setter_timeout, 0);
    let (out2, _) = deliver(&mut dbg, 0x1C, b"setter_timeout\x004294967296\x00");
    assert_eq!(out2, Vec::<u8>::new());
    assert_eq!(dbg.properties.setter_timeout, 0);
}

#[test]
fn unknown_option_names_are_ignored() {
    let mut dbg = connected_session();
    let (out, r) = deliver(&mut dbg, 0x1C, b"astrace\x00on\x00");
    assert_eq!(r, Some(false));
    assert_eq!(out, Vec::<u8>::new());
    let (out2, r2) = deliver(&mut dbg, 0x1B, b"astrace\x00");
    assert_eq!(r2, Some(false));
    assert_eq!(out2, Vec::<u8>::new());
}

#[test]
fn empty_option_name_is_just_a_nul() {
    let mut dbg = connected_session();
    let (out, r) = deliver(&mut dbg, 0x1B, b"\x00");
    assert_eq!(r, Some(false));
    assert_eq!(out, Vec::<u8>::new());
}

#[test]
fn get_info_lists_movies_with_lengths() {
    let mut dbg = connected_session();
    dbg.add_movie(MovieHandle { id: 0x1122334455667788, uncompressed_len: 100 });
    dbg.add_movie(MovieHandle { id: 0x99AABBCCDDEEFF00, uncompressed_len: 200 });
    let (out, r) = deliver(&mut dbg, 0x26, &[]);
    assert_eq!(r, Some(false));
    let mut payload: Vec<u8> = vec![0x02, 0x00];
    // first record
    payload.extend_from_slice(&[0, 0, 0, 0]);
    payload.extend_from_slice(&0x1122334455667788u64.to_le_bytes());
    payload.extend_from_slice(&[0, 0, 0, 0]);
    payload.extend_from_slice(&[100, 0, 0, 0]);
    payload.extend_from_slice(&[0; 16]);
    payload.extend_from_slice(&[0, 0, 0]);
    // second record
    payload.extend_from_slice(&[1, 0, 0, 0]);
    payload.extend_from_slice(&0x99AABBCCDDEEFF00u64.to_le_bytes());
    payload.extend_from_slice(&[0, 0, 0, 0]);
    payload.extend_from_slice(&[200, 0, 0, 0]);
    payload.extend_from_slice(&[0; 16]);
    payload.extend_from_slice(&[0, 0, 0]);
    assert_eq!(out, frame(0x2A, &payload));
}

#[test]
fn get_content_replies_with_empty_image() {
    let mut dbg = connected_session();
    let (out, r) = deliver(&mut dbg, 0x20, &[]);
    assert_eq!(r, Some(false));
    assert_eq!(out, frame(0x22, &[]));
    let (out2, r2) = deliver(&mut dbg, 0x21, &[]);
    assert_eq!(r2, Some(false));
    assert_eq!(out2, frame(0x22, &[]));
}

#[test]
fn continue_resumes_and_zero_length_body_is_legal() {
    let mut dbg = connected_session();
    let mut out = Vec::new();
    let header = vec![0x00, 0x00, 0x00, 0x00, 0x0F, 0x00, 0x00, 0x00];
    assert_eq!(dbg.tick(Some(header), &mut out), Some(false));
    assert_eq!(dbg.expected_read_len(), 0);
    assert_eq!(dbg.tick(Some(Vec::new()), &mut out), Some(true));
    assert_eq!(out, Vec::<u8>::new());
}

#[test]
fn only_continue_resumes() {
    let mut dbg = connected_session();
    let (_, r) = deliver(&mut dbg, 0x18, &[0, 0, 0, 0]);
    assert_eq!(r, Some(false));
    let (_, r2) = deliver(&mut dbg, 0x10, &[]);
    assert_eq!(r2, Some(false));
    let (_, r3) = deliver(&mut dbg, 0x0F, &[]);
    assert_eq!(r3, Some(true));
}

#[test]
fn unknown_client_code_is_consumed_and_ignored() {
    let mut dbg = connected_session();
    let (out, r) = deliver(&mut dbg, 0x29, &[1, 2, 3, 4, 5]);
    assert_eq!(r, Some(false));
    assert_eq!(out, Vec::<u8>::new());
    // the loop is still in sync: the next packet parses normally
    let (out2, r2) = deliver(&mut dbg, 0x18, &[1, 0, 0, 0]);
    assert_eq!(r2, Some(false));
    assert_eq!(out2, frame(0x1D, &[1, 0, 0, 0]));
}

#[test]
fn recognized_but_unhandled_code_is_ignored() {
    let mut dbg = connected_session();
    let (out, r) = deliver(&mut dbg, 0x05, &[]);
    assert_eq!(r, Some(false));
    assert_eq!(out, Vec::<u8>::new());
}

#[test]
fn short_payload_is_dropped_without_reply() {
    let mut dbg = connected_session();
    // SetSquelch needs four bytes; two arrive
    let (out, r) = deliver(&mut dbg, 0x18, &[1, 0]);
    assert_eq!(r, Some(false));
    assert_eq!(out, Vec::<u8>::new());
    assert!(!dbg.squelch);
    // session still alive
    let (out2, _) = deliver(&mut dbg, 0x18, &[1, 0, 0, 0]);
    assert_eq!(out2, frame(0x1D, &[1, 0, 0, 0]));
}

#[test]
fn script_loaded_sends_suspend_frame_with_stack() {
    let mut dbg = connected_session();
    let stack = CallStack {
        nodes: vec![CallNode::Method(String::from("pkg::Main/ctor"))],
    };
    let mut out = Vec::new();
    dbg.on_script_loaded(&stack, &mut out);
    let mut payload: Vec<u8> = vec![0x07, 0x00];
    payload.extend_from_slice(&[0x01, 0x00, 0x00, 0x00]);
    payload.extend_from_slice(&[0xFF, 0xFF, 0x00, 0x00]);
    payload.extend_from_slice(&[0; 8]);
    payload.extend_from_slice(b"pkg::Main/ctor\x00");
    assert_eq!(out, frame(0x28, &payload));
}

#[test]
fn script_loaded_reverses_the_node_list() {
    let mut dbg = connected_session();
    let stack = CallStack {
        nodes: vec![CallNode::GlobalInit, CallNode::Method(String::from("f"))],
    };
    let mut out = Vec::new();
    dbg.on_script_loaded(&stack, &mut out);
    let mut payload: Vec<u8> = vec![0x07, 0x00];
    payload.extend_from_slice(&[0x02, 0x00, 0x00, 0x00]);
    // innermost frame first: the method, then the bootstrap frame
    payload.extend_from_slice(&[0xFF, 0xFF, 0x00, 0x00]);
    payload.extend_from_slice(&[0; 8]);
    payload.extend_from_slice(b"f\x00");
    payload.extend_from_slice(&[0xFF, 0xFF, 0x00, 0x00]);
    payload.extend_from_slice(&[0; 8]);
    payload.extend_from_slice(b"global$init\x00");
    assert_eq!(out, frame(0x28, &payload));
}

#[test]
fn script_loaded_detached_sends_nothing() {
    let mut dbg = RemoteDebuggerBackend::new(String::from("movie.swf"), None);
    let stack = CallStack { nodes: vec![CallNode::GlobalInit] };
    let mut out = Vec::new();
    dbg.on_script_loaded(&stack, &mut out);
    assert_eq!(out, Vec::<u8>::new());
}

#[test]
fn on_position_reports_breakpoints_from_symbols() {
    let symbols = SwdSymbols {
        breakpoints: vec![
            SwdEntry { offset: 0x10, module_id: 1, line: 7 },
            SwdEntry { offset: 0x40, module_id: 1, line: 9 },
        ],
    };
    let mut dbg = RemoteDebuggerBackend::new(String::from("movie.swf"), Some(symbols));
    assert!(dbg.on_position(0x10));
    assert!(dbg.on_position(0x40));
    assert!(!dbg.on_position(0x11));
}

#[test]
fn on_position_without_symbols_never_hits() {
    let mut dbg = RemoteDebuggerBackend::new(String::from("movie.swf"), None);
    assert!(!dbg.on_position(0x10));
}

#[test]
fn resolve_breakpoint_returns_first_match() {
    let symbols = SwdSymbols {
        breakpoints: vec![
            SwdEntry { offset: 0x10, module_id: 1, line: 7 },
            SwdEntry { offset: 0x10, module_id: 2, line: 8 },
        ],
    };
    let hit = symbols.resolve_breakpoint(0x10).unwrap();
    assert_eq!(hit.module_id, 1);
    assert_eq!(hit.line, 7);
    assert_eq!(symbols.resolve_breakpoint(0x20), None);
}
