//! The debugger session: state, payload readers, per-message handlers and
//! the two-phase packet state machine.
//!
//! The host owns the transport. Each step it asks
//! [`RemoteDebuggerBackend::expected_read_len`] how many bytes the adapter
//! wants, performs at most one read, and hands the result to `tick`:
//! `None` for no progress, or exactly the requested bytes. Responses are
//! appended to the output buffer the host passes in and writes to the wire.

use vstd::prelude::*;
use vstd::string::StringSliceAdditionalSpecFns;
use vstd::utf8::encode_utf8;
use vstd::bytes::{
    spec_u16_to_le_bytes, spec_u32_to_le_bytes, spec_u32_from_le_bytes, spec_u64_to_le_bytes,
    u32_from_le_bytes,
};
use vstd::slice::slice_subrange;
use crate::buffer::{
    bytes_mut_view, bytes_view, bm_new, bm_len, bm_resize, bm_clear, bm_split_to, bm_advance,
    bm_get_u32_le, bm_freeze, bm_as_slice, bm_extend_from_slice, bytes_as_slice,
};
use crate::message::{
    ClientMessageKind, ServerMessageKind, SuspendReason, spec_client_kind_from_u32,
    server_kind_code, suspend_reason_code,
};
use crate::serialize::{frame_bytes, DebugBuilder, lemma_empty_str_bytes, lemma_encode_utf8_len_bound};
use crate::reader::{first_nul, take_u32, take_string, lemma_first_nul_props, lemma_first_nul_at};
use crate::decimal::{spec_digits, spec_parse_u32, u32_to_decimal, parse_u32_decimal, lemma_spec_digits_len_u32};
use crate::callstack::{CallStack, call_stack_bytes, node_name_bytes, lemma_stack_frames_len_bound};
use crate::swd::{SwdSymbols, find_breakpoint};

verus! {

/// What the adapter knows of one loaded movie: a stable identity and its
/// uncompressed byte length.
#[derive(Clone, Copy, Debug, PartialEq, Eq, Structural)]
pub struct MovieHandle {
    pub id: usize,
    pub uncompressed_len: u32,
}

/// The recognized debug options and their current values.
#[derive(Clone, Copy, Debug, PartialEq, Eq, Structural)]
pub struct DebuggerProperties {
    pub disable_script_stuck_dialog: bool,
    pub disable_script_stuck: bool,
    pub break_on_fault: bool,
    pub enumerate_override: bool,
    pub notify_on_failure: bool,
    pub invoke_setters: bool,
    pub wide_line_player: bool,
    pub wide_line_debugger: bool,
    pub swf_load_messages: bool,
    pub getter_timeout: u32,
    pub setter_timeout: u32,
}

/// All options start switched off and all timeouts at zero.
pub open spec fn default_properties() -> DebuggerProperties {
    DebuggerProperties {
        disable_script_stuck_dialog: false,
        disable_script_stuck: false,
        break_on_fault: false,
        enumerate_override: false,
        notify_on_failure: false,
        invoke_setters: false,
        wide_line_player: false,
        wide_line_debugger: false,
        swf_load_messages: false,
        getter_timeout: 0,
        setter_timeout: 0,
    }
}

/// Whether two byte slices hold the same bytes.
pub fn bytes_eq(a: &[u8], b: &[u8]) -> (r: bool)
    ensures
        r == (a@ == b@),
{
    if a.len() != b.len() {
        proof {
            assert(a@ != b@);
        }
        return false;
    }
    let mut i: usize = 0;
    while i < a.len()
        invariant
            a@.len() == b@.len(),
            i <= a@.len(),
            forall|j: int| 0 <= j < i ==> a@[j] == b@[j],
        decreases a@.len() - i,
    {
        if a[i] != b[i] {
            return false;
        }
        i = i + 1;
    }
    proof {
        assert(a@ =~= b@);
    }
    true
}

/// The index of the first NUL byte in `s`, if any.
fn find_nul(s: &[u8]) -> (r: Option<usize>)
    ensures
        match first_nul(s@) {
            Some(i) => r matches Some(j) && j == i,
            None => r is None,
        },
{
    let mut i: usize = 0;
    while i < s.len()
        invariant
            i <= s@.len(),
            forall|j: int| 0 <= j < i ==> #[trigger] s@[j] != 0,
        decreases s@.len() - i,
    {
        if s[i] == 0 {
            proof {
                lemma_first_nul_at(s@, i as int);
            }
            return Some(i);
        }
        i = i + 1;
    }
    proof {
        lemma_first_nul_props(s@);
    }
    None
}

/// The remote debugger session. Its two-phase read state is either
/// *awaiting header* (`packet_kind` absent, body buffer empty) or *awaiting
/// body* (`packet_kind` holds the raw kind code, body buffer sized to the
/// declared length). The raw code is kept rather than a decoded kind so
/// that a packet with an unknown code still has its body consumed.
pub struct RemoteDebuggerBackend {
    pub connected: bool,
    pub movies: Vec<MovieHandle>,
    pub path: String,
    pub swd: Option<SwdSymbols>,
    pub properties: DebuggerProperties,
    pub squelch: bool,
    pub packet_kind: Option<u32>,
    pub data: bytes::BytesMut,
}

impl RemoteDebuggerBackend {
    /// Session well-formedness: the movie list fits the wire's 16-bit
    /// count, the path fits a frame, and between packets the body buffer
    /// is empty.
    pub open spec fn wf(self) -> bool {
        &&& self.movies@.len() <= 0xFFFF
        &&& encode_utf8(self.path@).len() <= 0xFFFF
        &&& (self.packet_kind is None ==> bytes_mut_view(self.data).len() == 0)
    }

    /// How many bytes the next read should deliver: a whole header, or the
    /// declared body length.
    pub open spec fn spec_expected_read_len(self) -> nat {
        match self.packet_kind {
            None => 8,
            Some(_) => bytes_mut_view(self.data).len(),
        }
    }

    /// How many bytes the next read should deliver.
    pub fn expected_read_len(&self) -> (r: usize)
        ensures
            r == self.spec_expected_read_len(),
    {
        match self.packet_kind {
            None => 8,
            Some(_) => bm_len(&self.data),
        }
    }

    /// A detached session for the movie at `path`, with symbols if the
    /// host decoded any.
    pub fn new(path: String, swd: Option<SwdSymbols>) -> (r: RemoteDebuggerBackend)
        requires
            encode_utf8(path@).len() <= 0xFFFF,
        ensures
            r.connected == false,
            r.movies@ == Seq::<MovieHandle>::empty(),
            r.path == path,
            r.swd == swd,
            r.properties == default_properties(),
            r.squelch == false,
            r.packet_kind is None,
            bytes_mut_view(r.data).len() == 0,
            r.wf(),
    {
        RemoteDebuggerBackend {
            connected: false,
            movies: Vec::new(),
            path,
            swd,
            properties: DebuggerProperties {
                disable_script_stuck_dialog: false,
                disable_script_stuck: false,
                break_on_fault: false,
                enumerate_override: false,
                notify_on_failure: false,
                invoke_setters: false,
                wide_line_player: false,
                wide_line_debugger: false,
                swf_load_messages: false,
                getter_timeout: 0,
                setter_timeout: 0,
            },
            squelch: false,
            packet_kind: None,
            data: bm_new(),
        }
    }

    /// Consume a 32-bit little-endian integer from the body buffer.
    pub fn read_u32(&mut self) -> (r: Option<u32>)
        ensures
            *final(self) == (RemoteDebuggerBackend { data: final(self).data, ..*old(self) }),
            match take_u32(bytes_mut_view(old(self).data)) {
                Some(pair) => r == Some(pair.0) && bytes_mut_view(final(self).data) == pair.1,
                None => r is None && bytes_mut_view(final(self).data) == bytes_mut_view(
                    old(self).data,
                ),
            },
    {
        if bm_len(&self.data) < 4 {
            return None;
        }
        let v = bm_get_u32_le(&mut self.data);
        Some(v)
    }

    /// Consume a NUL-terminated string from the body buffer: the bytes
    /// before the first NUL, with the NUL discarded.
    pub fn read_string(&mut self) -> (r: Option<bytes::Bytes>)
        ensures
            *final(self) == (RemoteDebuggerBackend { data: final(self).data, ..*old(self) }),
            match take_string(bytes_mut_view(old(self).data)) {
                Some(pair) => r matches Some(b) && bytes_view(b) == pair.0 && bytes_mut_view(
                    final(self).data,
                ) == pair.1,
                None => r is None && bytes_mut_view(final(self).data) == bytes_mut_view(
                    old(self).data,
                ),
            },
    {
        let null_at = match find_nul(bm_as_slice(&self.data)) {
            Some(i) => i,
            None => {
                return None;
            },
        };
        proof {
            lemma_first_nul_props(bytes_mut_view(self.data));
        }
        let string = bm_split_to(&mut self.data, null_at);
        bm_advance(&mut self.data, 1);
        proof {
            assert(bytes_mut_view(old(self).data).skip(null_at as int).skip(1)
                =~= bytes_mut_view(old(self).data).skip(null_at + 1));
        }
        Some(bm_freeze(string))
    }

    /// Consume an on/off switch: a string that must be exactly `on` or
    /// `off`. An unrecognized string is still consumed.
    pub fn read_switch(&mut self) -> (r: Option<bool>)
        ensures
            *final(self) == (RemoteDebuggerBackend { data: final(self).data, ..*old(self) }),
            match take_string(bytes_mut_view(old(self).data)) {
                Some(pair) => bytes_mut_view(final(self).data) == pair.1 && r == switch_value(
                    pair.0,
                ),
                None => r is None && bytes_mut_view(final(self).data) == bytes_mut_view(
                    old(self).data,
                ),
            },
    {
        let prop = match self.read_string() {
            Some(p) => p,
            None => {
                return None;
            },
        };
        let s = bytes_as_slice(&prop);
        if bytes_eq(s, "on".as_bytes()) {
            Some(true)
        } else if bytes_eq(s, "off".as_bytes()) {
            Some(false)
        } else {
            None
        }
    }
}

/// The boolean a switch string denotes, if it is recognized.
pub open spec fn switch_value(s: Seq<u8>) -> Option<bool> {
    if s == "on".spec_bytes() {
        Some(true)
    } else if s == "off".spec_bytes() {
        Some(false)
    } else {
        None
    }
}

/// The text form of a boolean option value.
pub open spec fn bool_str(b: bool) -> Seq<u8> {
    if b {
        "true".spec_bytes()
    } else {
        "false".spec_bytes()
    }
}

/// The current text value of a recognized option, or nothing for an
/// unrecognized name.
pub open spec fn lookup_option_value(p: DebuggerProperties, name: Seq<u8>) -> Option<Seq<u8>> {
    if name == "disable_script_stuck_dialog".spec_bytes() {
        Some(bool_str(p.disable_script_stuck_dialog))
    } else if name == "disable_script_stuck".spec_bytes() {
        Some(bool_str(p.disable_script_stuck))
    } else if name == "break_on_fault".spec_bytes() {
        Some(bool_str(p.break_on_fault))
    } else if name == "enumerate_override".spec_bytes() {
        Some(bool_str(p.enumerate_override))
    } else if name == "notify_on_failure".spec_bytes() {
        Some(bool_str(p.notify_on_failure))
    } else if name == "invoke_setters".spec_bytes() {
        Some(bool_str(p.invoke_setters))
    } else if name == "wide_line_player".spec_bytes() {
        Some(bool_str(p.wide_line_player))
    } else if name == "wide_line_debugger".spec_bytes() {
        Some(bool_str(p.wide_line_debugger))
    } else if name == "swf_load_messages".spec_bytes() {
        Some(bool_str(p.swf_load_messages))
    } else if name == "getter_timeout".spec_bytes() {
        Some(spec_digits(p.getter_timeout as nat))
    } else if name == "setter_timeout".spec_bytes() {
        Some(spec_digits(p.setter_timeout as nat))
    } else {
        None
    }
}

/// Whether `name` is one of the boolean options.
pub open spec fn is_bool_option(name: Seq<u8>) -> bool {
    ||| name == "disable_script_stuck_dialog".spec_bytes()
    ||| name == "disable_script_stuck".spec_bytes()
    ||| name == "break_on_fault".spec_bytes()
    ||| name == "enumerate_override".spec_bytes()
    ||| name == "notify_on_failure".spec_bytes()
    ||| name == "invoke_setters".spec_bytes()
    ||| name == "wide_line_player".spec_bytes()
    ||| name == "wide_line_debugger".spec_bytes()
    ||| name == "swf_load_messages".spec_bytes()
}

/// Whether `name` is one of the numeric timeout options.
pub open spec fn is_timeout_option(name: Seq<u8>) -> bool {
    ||| name == "getter_timeout".spec_bytes()
    ||| name == "setter_timeout".spec_bytes()
}

/// The properties after setting the boolean option `name` to `b`; an
/// unrecognized name changes nothing. Matching order follows the handler.
pub open spec fn set_bool_option(p: DebuggerProperties, name: Seq<u8>, b: bool)
    -> DebuggerProperties {
    if name == "disable_script_stuck_dialog".spec_bytes() {
        DebuggerProperties { disable_script_stuck_dialog: b, ..p }
    } else if name == "disable_script_stuck".spec_bytes() {
        DebuggerProperties { disable_script_stuck: b, ..p }
    } else if name == "break_on_fault".spec_bytes() {
        DebuggerProperties { break_on_fault: b, ..p }
    } else if name == "enumerate_override".spec_bytes() {
        DebuggerProperties { enumerate_override: b, ..p }
    } else if name == "notify_on_failure".spec_bytes() {
        DebuggerProperties { notify_on_failure: b, ..p }
    } else if name == "invoke_setters".spec_bytes() {
        DebuggerProperties { invoke_setters: b, ..p }
    } else if name == "wide_line_player".spec_bytes() {
        DebuggerProperties { wide_line_player: b, ..p }
    } else if name == "wide_line_debugger".spec_bytes() {
        DebuggerProperties { wide_line_debugger: b, ..p }
    } else if name == "swf_load_messages".spec_bytes() {
        DebuggerProperties { swf_load_messages: b, ..p }
    } else {
        p
    }
}

/// The properties after setting the timeout option `name` to `v`.
pub open spec fn set_timeout_option(p: DebuggerProperties, name: Seq<u8>, v: u32)
    -> DebuggerProperties {
    if name == "getter_timeout".spec_bytes() {
        DebuggerProperties { getter_timeout: v, ..p }
    } else if name == "setter_timeout".spec_bytes() {
        DebuggerProperties { setter_timeout: v, ..p }
    } else {
        p
    }
}

/// The reply to a squelch request: the flag echoed as `0` or `1`.
pub open spec fn squelch_frame(v: u32) -> Seq<u8> {
    frame_bytes(
        server_kind_code(ServerMessageKind::Squelch),
        spec_u32_to_le_bytes(if v != 0 { 1u32 } else { 0u32 }),
    )
}

/// The reply to a content request: an image frame with an empty payload.
pub open spec fn empty_image_frame() -> Seq<u8> {
    frame_bytes(server_kind_code(ServerMessageKind::SwfImage), Seq::<u8>::empty())
}

/// The reply to an option request: the name and its text value.
pub open spec fn option_frame(name: Seq<u8>, value: Seq<u8>) -> Seq<u8> {
    frame_bytes(
        server_kind_code(ServerMessageKind::DebuggerOption),
        name + seq![0u8] + value + seq![0u8],
    )
}

/// One record of the movie listing: index, identity, a cleared flag byte,
/// a zero byte, a zero 16-bit word, the uncompressed length, four zero
/// counters (scripts, offsets, breakpoints, port), and three empty strings
/// (path, url, host).
pub open spec fn movie_record_bytes(i: int, m: MovieHandle) -> Seq<u8> {
    spec_u32_to_le_bytes(i as u32) + spec_u64_to_le_bytes(m.id as u64) + seq![0u8] + seq![0u8]
        + spec_u16_to_le_bytes(0u16) + spec_u32_to_le_bytes(m.uncompressed_len)
        + spec_u32_to_le_bytes(0u32) + spec_u32_to_le_bytes(0u32) + spec_u32_to_le_bytes(0u32)
        + spec_u32_to_le_bytes(0u32) + seq![0u8] + seq![0u8] + seq![0u8]
}

/// The records of the first `n` movies, in order.
pub open spec fn movie_records_bytes(movies: Seq<MovieHandle>, n: int) -> Seq<u8>
    decreases n,
{
    if n <= 0 {
        Seq::empty()
    } else {
        movie_records_bytes(movies, n - 1) + movie_record_bytes(n - 1, movies[n - 1])
    }
}

/// The movie listing payload: a 16-bit count, then one record per movie.
pub open spec fn swf_info_payload(movies: Seq<MovieHandle>) -> Seq<u8> {
    spec_u16_to_le_bytes(movies.len() as u16) + movie_records_bytes(movies, movies.len() as int)
}

/// The reply to an info request.
pub open spec fn swf_info_frame(movies: Seq<MovieHandle>) -> Seq<u8> {
    frame_bytes(server_kind_code(ServerMessageKind::SwfInfo), swf_info_payload(movies))
}

/// Each movie record is 39 bytes long.
proof fn lemma_movie_records_len(movies: Seq<MovieHandle>, n: int)
    requires
        0 <= n,
    ensures
        movie_records_bytes(movies, n).len() == 39 * n,
    decreases n,
{
    vstd::bytes::lemma_auto_spec_u16_to_from_le_bytes();
    vstd::bytes::lemma_auto_spec_u32_to_from_le_bytes();
    vstd::bytes::lemma_auto_spec_u64_to_from_le_bytes();
    if n > 0 {
        lemma_movie_records_len(movies, n - 1);
    }
}

/// What a squelch request does: read the flag, store it, echo it.
/// Yields the new flag, the remaining body, the frames sent when attached,
/// and whether the request was well-formed.
pub open spec fn set_squelch_spec(sq: bool, body: Seq<u8>) -> (bool, Seq<u8>, Seq<u8>, bool) {
    match take_u32(body) {
        Some(pair) => ((pair.0 != 0), pair.1, squelch_frame(pair.0), true),
        None => (sq, body, Seq::<u8>::empty(), false),
    }
}

/// What an option query does: read the name, look its value up, echo both.
/// Yields the remaining body, the frames sent when attached, and whether
/// the request was recognized.
pub open spec fn get_debug_option_spec(p: DebuggerProperties, body: Seq<u8>)
    -> (Seq<u8>, Seq<u8>, bool) {
    match take_string(body) {
        None => (body, Seq::<u8>::empty(), false),
        Some(pair) => match lookup_option_value(p, pair.0) {
            Some(value) => (pair.1, option_frame(pair.0, value), true),
            None => (pair.1, Seq::<u8>::empty(), false),
        },
    }
}

/// What setting a boolean option does once the name is read: read a
/// switch, store it, echo the new value. A malformed switch is consumed
/// but changes nothing.
pub open spec fn bool_option_step(p: DebuggerProperties, name: Seq<u8>, body: Seq<u8>)
    -> (DebuggerProperties, Seq<u8>, Seq<u8>, bool) {
    match take_string(body) {
        None => (p, body, Seq::<u8>::empty(), false),
        Some(sw) => match switch_value(sw.0) {
            Some(b) => (set_bool_option(p, name, b), sw.1, option_frame(name, bool_str(b)), true),
            None => (p, sw.1, Seq::<u8>::empty(), false),
        },
    }
}

/// What setting a timeout option does once the name is read: read a
/// decimal string, store its value, echo the value in decimal. A string
/// that does not parse is consumed but changes nothing.
pub open spec fn timeout_option_step(p: DebuggerProperties, name: Seq<u8>, body: Seq<u8>)
    -> (DebuggerProperties, Seq<u8>, Seq<u8>, bool) {
    match take_string(body) {
        None => (p, body, Seq::<u8>::empty(), false),
        Some(vs) => match spec_parse_u32(vs.0) {
            Some(v) => (
                set_timeout_option(p, name, v),
                vs.1,
                option_frame(name, spec_digits(v as nat)),
                true,
            ),
            None => (p, vs.1, Seq::<u8>::empty(), false),
        },
    }
}

/// What an option update does: read the name, then a switch or a decimal
/// string as the option demands, store the value and echo it. Yields the
/// new properties, the remaining body, the frames sent when attached, and
/// whether the request was well-formed. An unrecognized name is accepted
/// and ignored.
pub open spec fn set_debug_option_spec(p: DebuggerProperties, body: Seq<u8>)
    -> (DebuggerProperties, Seq<u8>, Seq<u8>, bool) {
    match take_string(body) {
        None => (p, body, Seq::<u8>::empty(), false),
        Some(pair) => if is_bool_option(pair.0) {
            bool_option_step(p, pair.0, pair.1)
        } else if is_timeout_option(pair.0) {
            timeout_option_step(p, pair.0, pair.1)
        } else {
            (p, pair.1, Seq::<u8>::empty(), true)
        },
    }
}

/// Bounds on the option vocabulary, so that every reply frame's payload
/// fits its 32-bit length prefix.
proof fn lemma_option_text_lens()
    ensures
        "disable_script_stuck_dialog".spec_bytes().len() <= 128,
        "disable_script_stuck".spec_bytes().len() <= 128,
        "break_on_fault".spec_bytes().len() <= 128,
        "enumerate_override".spec_bytes().len() <= 128,
        "notify_on_failure".spec_bytes().len() <= 128,
        "invoke_setters".spec_bytes().len() <= 128,
        "wide_line_player".spec_bytes().len() <= 128,
        "wide_line_debugger".spec_bytes().len() <= 128,
        "swf_load_messages".spec_bytes().len() <= 128,
        "getter_timeout".spec_bytes().len() <= 128,
        "setter_timeout".spec_bytes().len() <= 128,
        "true".spec_bytes().len() <= 128,
        "false".spec_bytes().len() <= 128,
        "movie".spec_bytes().len() <= 128,
        "password".spec_bytes().len() <= 128,
{
    reveal_strlit("disable_script_stuck_dialog");
    reveal_strlit("disable_script_stuck");
    reveal_strlit("break_on_fault");
    reveal_strlit("enumerate_override");
    reveal_strlit("notify_on_failure");
    reveal_strlit("invoke_setters");
    reveal_strlit("wide_line_player");
    reveal_strlit("wide_line_debugger");
    reveal_strlit("swf_load_messages");
    reveal_strlit("getter_timeout");
    reveal_strlit("setter_timeout");
    reveal_strlit("true");
    reveal_strlit("false");
    reveal_strlit("movie");
    reveal_strlit("password");
    lemma_encode_utf8_len_bound("disable_script_stuck_dialog"@);
    lemma_encode_utf8_len_bound("disable_script_stuck"@);
    lemma_encode_utf8_len_bound("break_on_fault"@);
    lemma_encode_utf8_len_bound("enumerate_override"@);
    lemma_encode_utf8_len_bound("notify_on_failure"@);
    lemma_encode_utf8_len_bound("invoke_setters"@);
    lemma_encode_utf8_len_bound("wide_line_player"@);
    lemma_encode_utf8_len_bound("wide_line_debugger"@);
    lemma_encode_utf8_len_bound("swf_load_messages"@);
    lemma_encode_utf8_len_bound("getter_timeout"@);
    lemma_encode_utf8_len_bound("setter_timeout"@);
    lemma_encode_utf8_len_bound("true"@);
    lemma_encode_utf8_len_bound("false"@);
    lemma_encode_utf8_len_bound("movie"@);
    lemma_encode_utf8_len_bound("password"@);
}

/// Send a `DebuggerOption` reply when attached.
fn send_option_reply(connected: bool, name: &[u8], value: &[u8], out: &mut Vec<u8>)
    requires
        name@.len() + value@.len() + 10 <= u32::MAX,
    ensures
        final(out)@ == old(out)@ + (if connected {
            option_frame(name@, value@)
        } else {
            Seq::<u8>::empty()
        }),
{
    if connected {
        let mut b = DebugBuilder::new(ServerMessageKind::DebuggerOption);
        b.add(name);
        b.add(value);
        proof {
            assert(b.data@ =~= name@ + seq![0u8] + value@ + seq![0u8]);
        }
        b.send(out);
    } else {
        proof {
            assert(out@ =~= old(out)@ + Seq::<u8>::empty());
        }
    }
}

impl RemoteDebuggerBackend {
    /// Handle a squelch request: store the flag and echo it.
    pub fn set_squelch(&mut self, out: &mut Vec<u8>) -> (r: Option<()>)
        ensures
            *final(self) == (RemoteDebuggerBackend {
                squelch: final(self).squelch,
                data: final(self).data,
                ..*old(self)
            }),
            ({
                let (sq2, rest, frames, ok) = set_squelch_spec(
                    old(self).squelch,
                    bytes_mut_view(old(self).data),
                );
                &&& final(self).squelch == sq2
                &&& bytes_mut_view(final(self).data) == rest
                &&& final(out)@ == old(out)@ + (if old(self).connected {
                    frames
                } else {
                    Seq::<u8>::empty()
                })
                &&& r == (if ok {
                    Option::Some(())
                } else {
                    Option::<()>::None
                })
            }),
    {
        let v = match self.read_u32() {
            Some(v) => v,
            None => {
                proof {
                    assert(out@ =~= old(out)@ + Seq::<u8>::empty());
                }
                return None;
            },
        };
        self.squelch = v != 0;
        if self.connected {
            let mut b = DebugBuilder::new(ServerMessageKind::Squelch);
            b.add(if self.squelch { 1u32 } else { 0u32 });
            proof {
                vstd::bytes::lemma_auto_spec_u32_to_from_le_bytes();
            }
            b.send(out);
        } else {
            proof {
                assert(out@ =~= old(out)@ + Seq::<u8>::empty());
            }
        }
        Some(())
    }

    /// Handle a content request: reply with an empty image frame.
    pub fn get_content(&mut self, out: &mut Vec<u8>) -> (r: Option<()>)
        ensures
            *final(self) == *old(self),
            final(out)@ == old(out)@ + (if old(self).connected {
                empty_image_frame()
            } else {
                Seq::<u8>::empty()
            }),
            r is Some,
    {
        if self.connected {
            let b = DebugBuilder::new(ServerMessageKind::SwfImage);
            b.send(out);
        } else {
            proof {
                assert(out@ =~= old(out)@ + Seq::<u8>::empty());
            }
        }
        Some(())
    }

    /// Handle a debug-content request: reply with an empty image frame.
    pub fn get_debug_content(&mut self, out: &mut Vec<u8>) -> (r: Option<()>)
        ensures
            *final(self) == *old(self),
            final(out)@ == old(out)@ + (if old(self).connected {
                empty_image_frame()
            } else {
                Seq::<u8>::empty()
            }),
            r is Some,
    {
        if self.connected {
            let b = DebugBuilder::new(ServerMessageKind::SwfImage);
            b.send(out);
        } else {
            proof {
                assert(out@ =~= old(out)@ + Seq::<u8>::empty());
            }
        }
        Some(())
    }

    /// Handle an info request: list every movie with its identity and
    /// length.
    pub fn get_info(&mut self, out: &mut Vec<u8>) -> (r: Option<()>)
        requires
            old(self).movies@.len() <= 0xFFFF,
        ensures
            *final(self) == *old(self),
            final(out)@ == old(out)@ + (if old(self).connected {
                swf_info_frame(old(self).movies@)
            } else {
                Seq::<u8>::empty()
            }),
            r is Some,
    {
        if !self.connected {
            proof {
                assert(out@ =~= old(out)@ + Seq::<u8>::empty());
            }
            return Some(());
        }
        let mut b = DebugBuilder::new(ServerMessageKind::SwfInfo);
        b.add(self.movies.len() as u16);
        proof {
            assert(b.data@ =~= spec_u16_to_le_bytes(self.movies@.len() as u16)
                + movie_records_bytes(self.movies@, 0));
        }
        let mut i: usize = 0;
        while i < self.movies.len()
            invariant
                i <= self.movies@.len(),
                self.movies@.len() <= 0xFFFF,
                b.kind == ServerMessageKind::SwfInfo,
                b.data@ == spec_u16_to_le_bytes(self.movies@.len() as u16) + movie_records_bytes(
                    self.movies@,
                    i as int,
                ),
            decreases self.movies@.len() - i,
        {
            let m = self.movies[i];
            b.add(i as u32);
            b.add(m.id);
            b.add(false);
            b.add(0u8);
            b.add(0u16);
            b.add(m.uncompressed_len);
            b.add(0u32);
            b.add(0u32);
            b.add(0u32);
            b.add(0u32);
            b.add("");
            b.add("");
            b.add("");
            proof {
                lemma_empty_str_bytes();
                assert(b.data@ =~= spec_u16_to_le_bytes(self.movies@.len() as u16)
                    + movie_records_bytes(self.movies@, i + 1));
            }
            i = i + 1;
        }
        proof {
            lemma_movie_records_len(self.movies@, self.movies@.len() as int);
            vstd::bytes::lemma_auto_spec_u16_to_from_le_bytes();
            assert(b.data@ =~= swf_info_payload(self.movies@));
        }
        b.send(out);
        Some(())
    }

    /// Handle an option query: look the name up and reply with its value.
    pub fn get_debug_option(&mut self, out: &mut Vec<u8>) -> (r: Option<()>)
        ensures
            *final(self) == (RemoteDebuggerBackend { data: final(self).data, ..*old(self) }),
            ({
                let (rest, frames, ok) = get_debug_option_spec(
                    old(self).properties,
                    bytes_mut_view(old(self).data),
                );
                &&& bytes_mut_view(final(self).data) == rest
                &&& final(out)@ == old(out)@ + (if old(self).connected {
                    frames
                } else {
                    Seq::<u8>::empty()
                })
                &&& r == (if ok {
                    Option::Some(())
                } else {
                    Option::<()>::None
                })
            }),
    {
        let prop = match self.read_string() {
            Some(p) => p,
            None => {
                proof {
                    assert(out@ =~= old(out)@ + Seq::<u8>::empty());
                }
                return None;
            },
        };
        let s = bytes_as_slice(&prop);
        proof {
            lemma_option_text_lens();
        }
        if bytes_eq(s, "disable_script_stuck_dialog".as_bytes()) {
            let v = self.properties.disable_script_stuck_dialog;
            send_option_reply(self.connected, s, (if v { "true" } else { "false" }).as_bytes(), out);
            Some(())
        } else if bytes_eq(s, "disable_script_stuck".as_bytes()) {
            let v = self.properties.disable_script_stuck;
            send_option_reply(self.connected, s, (if v { "true" } else { "false" }).as_bytes(), out);
            Some(())
        } else if bytes_eq(s, "break_on_fault".as_bytes()) {
            let v = self.properties.break_on_fault;
            send_option_reply(self.connected, s, (if v { "true" } else { "false" }).as_bytes(), out);
            Some(())
        } else if bytes_eq(s, "enumerate_override".as_bytes()) {
            let v = self.properties.enumerate_override;
            send_option_reply(self.connected, s, (if v { "true" } else { "false" }).as_bytes(), out);
            Some(())
        } else if bytes_eq(s, "notify_on_failure".as_bytes()) {
            let v = self.properties.notify_on_failure;
            send_option_reply(self.connected, s, (if v { "true" } else { "false" }).as_bytes(), out);
            Some(())
        } else if bytes_eq(s, "invoke_setters".as_bytes()) {
            let v = self.properties.invoke_setters;
            send_option_reply(self.connected, s, (if v { "true" } else { "false" }).as_bytes(), out);
            Some(())
        } else if bytes_eq(s, "wide_line_player".as_bytes()) {
            let v = self.properties.wide_line_player;
            send_option_reply(self.connected, s, (if v { "true" } else { "false" }).as_bytes(), out);
            Some(())
        } else if bytes_eq(s, "wide_line_debugger".as_bytes()) {
            let v = self.properties.wide_line_debugger;
            send_option_reply(self.connected, s, (if v { "true" } else { "false" }).as_bytes(), out);
            Some(())
        } else if bytes_eq(s, "swf_load_messages".as_bytes()) {
            let v = self.properties.swf_load_messages;
            send_option_reply(self.connected, s, (if v { "true" } else { "false" }).as_bytes(), out);
            Some(())
        } else if bytes_eq(s, "getter_timeout".as_bytes()) {
            let val = u32_to_decimal(self.properties.getter_timeout);
            proof {
                lemma_spec_digits_len_u32(self.properties.getter_timeout as nat);
            }
            send_option_reply(self.connected, s, val.as_slice(), out);
            Some(())
        } else if bytes_eq(s, "setter_timeout".as_bytes()) {
            let val = u32_to_decimal(self.properties.setter_timeout);
            proof {
                lemma_spec_digits_len_u32(self.properties.setter_timeout as nat);
            }
            send_option_reply(self.connected, s, val.as_slice(), out);
            Some(())
        } else {
            proof {
                assert(out@ =~= old(out)@ + Seq::<u8>::empty());
            }
            None
        }
    }

    /// Handle an option update: read the value the option demands, store
    /// it and echo the new value. A malformed switch or number leaves the
    /// option unchanged; an unrecognized name is ignored.
    pub fn set_debug_option(&mut self, out: &mut Vec<u8>) -> (r: Option<()>)
        ensures
            *final(self) == (RemoteDebuggerBackend {
                properties: final(self).properties,
                data: final(self).data,
                ..*old(self)
            }),
            ({
                let (p2, rest, frames, ok) = set_debug_option_spec(
                    old(self).properties,
                    bytes_mut_view(old(self).data),
                );
                &&& final(self).properties == p2
                &&& bytes_mut_view(final(self).data) == rest
                &&& final(out)@ == old(out)@ + (if old(self).connected {
                    frames
                } else {
                    Seq::<u8>::empty()
                })
                &&& r == (if ok {
                    Option::Some(())
                } else {
                    Option::<()>::None
                })
            }),
    {
        let prop = match self.read_string() {
            Some(p) => p,
            None => {
                proof {
                    assert(out@ =~= old(out)@ + Seq::<u8>::empty());
                }
                return None;
            },
        };
        let s = bytes_as_slice(&prop);
        if is_bool_option_name(s) {
            self.apply_switch_option(s, out)
        } else if is_timeout_option_name(s) {
            self.apply_timeout_option(s, out)
        } else {
            proof {
                assert(out@ =~= old(out)@ + Seq::<u8>::empty());
            }
            Some(())
        }
    }

    /// Read a switch and store it in the named boolean option.
    #[verifier::rlimit(100)]
    fn apply_switch_option(&mut self, s: &[u8], out: &mut Vec<u8>) -> (r: Option<()>)
        requires
            is_bool_option(s@),
        ensures
            *final(self) == (RemoteDebuggerBackend {
                properties: final(self).properties,
                data: final(self).data,
                ..*old(self)
            }),
            ({
                let (p2, rest, frames, ok) = bool_option_step(
                    old(self).properties,
                    s@,
                    bytes_mut_view(old(self).data),
                );
                &&& final(self).properties == p2
                &&& bytes_mut_view(final(self).data) == rest
                &&& final(out)@ == old(out)@ + (if old(self).connected {
                    frames
                } else {
                    Seq::<u8>::empty()
                })
                &&& r == (if ok {
                    Option::Some(())
                } else {
                    Option::<()>::None
                })
            }),
    {
        let b = match self.read_switch() {
            Some(b) => b,
            None => {
                proof {
                    assert(out@ =~= old(out)@ + Seq::<u8>::empty());
                }
                return None;
            },
        };
        if bytes_eq(s, "disable_script_stuck_dialog".as_bytes()) {
            self.properties.disable_script_stuck_dialog = b;
        } else if bytes_eq(s, "disable_script_stuck".as_bytes()) {
            self.properties.disable_script_stuck = b;
        } else if bytes_eq(s, "break_on_fault".as_bytes()) {
            self.properties.break_on_fault = b;
        } else if bytes_eq(s, "enumerate_override".as_bytes()) {
            self.properties.enumerate_override = b;
        } else if bytes_eq(s, "notify_on_failure".as_bytes()) {
            self.properties.notify_on_failure = b;
        } else if bytes_eq(s, "invoke_setters".as_bytes()) {
            self.properties.invoke_setters = b;
        } else if bytes_eq(s, "wide_line_player".as_bytes()) {
            self.properties.wide_line_player = b;
        } else if bytes_eq(s, "wide_line_debugger".as_bytes()) {
            self.properties.wide_line_debugger = b;
        } else {
            proof {
                assert(s@ == "swf_load_messages".spec_bytes());
            }
            self.properties.swf_load_messages = b;
        }
        proof {
            lemma_option_text_lens();
        }
        send_option_reply(self.connected, s, (if b { "true" } else { "false" }).as_bytes(), out);
        Some(())
    }

    /// Read a decimal string and store its value in the named timeout
    /// option.
    #[verifier::rlimit(100)]
    fn apply_timeout_option(&mut self, s: &[u8], out: &mut Vec<u8>) -> (r: Option<()>)
        requires
            is_timeout_option(s@),
        ensures
            *final(self) == (RemoteDebuggerBackend {
                properties: final(self).properties,
                data: final(self).data,
                ..*old(self)
            }),
            ({
                let (p2, rest, frames, ok) = timeout_option_step(
                    old(self).properties,
                    s@,
                    bytes_mut_view(old(self).data),
                );
                &&& final(self).properties == p2
                &&& bytes_mut_view(final(self).data) == rest
                &&& final(out)@ == old(out)@ + (if old(self).connected {
                    frames
                } else {
                    Seq::<u8>::empty()
                })
                &&& r == (if ok {
                    Option::Some(())
                } else {
                    Option::<()>::None
                })
            }),
    {
        let vs = match self.read_string() {
            Some(v) => v,
            None => {
                proof {
                    assert(out@ =~= old(out)@ + Seq::<u8>::empty());
                }
                return None;
            },
        };
        let v = match parse_u32_decimal(bytes_as_slice(&vs)) {
            Some(v) => v,
            None => {
                proof {
                    assert(out@ =~= old(out)@ + Seq::<u8>::empty());
                }
                return None;
            },
        };
        if bytes_eq(s, "getter_timeout".as_bytes()) {
            self.properties.getter_timeout = v;
        } else {
            proof {
                assert(s@ == "setter_timeout".spec_bytes());
            }
            self.properties.setter_timeout = v;
        }
        let val = u32_to_decimal(v);
        proof {
            lemma_option_text_lens();
            lemma_spec_digits_len_u32(v as nat);
        }
        send_option_reply(self.connected, s, val.as_slice(), out);
        Some(())
    }
}

/// Whether `s` names a boolean option.
fn is_bool_option_name(s: &[u8]) -> (r: bool)
    ensures
        r == is_bool_option(s@),
{
    bytes_eq(s, "disable_script_stuck_dialog".as_bytes()) || bytes_eq(
        s,
        "disable_script_stuck".as_bytes(),
    ) || bytes_eq(s, "break_on_fault".as_bytes()) || bytes_eq(s, "enumerate_override".as_bytes())
        || bytes_eq(s, "notify_on_failure".as_bytes()) || bytes_eq(s, "invoke_setters".as_bytes())
        || bytes_eq(s, "wide_line_player".as_bytes()) || bytes_eq(
        s,
        "wide_line_debugger".as_bytes(),
    ) || bytes_eq(s, "swf_load_messages".as_bytes())
}

/// Whether `s` names a timeout option.
fn is_timeout_option_name(s: &[u8]) -> (r: bool)
    ensures
        r == is_timeout_option(s@),
{
    bytes_eq(s, "getter_timeout".as_bytes()) || bytes_eq(s, "setter_timeout".as_bytes())
}

/// The three greeting frames sent right after the transport is attached:
/// the protocol version, the movie attribute naming the debugged file, and
/// the password attribute.
pub open spec fn greeting_bytes(path: Seq<u8>, password: Seq<u8>) -> Seq<u8> {
    frame_bytes(server_kind_code(ServerMessageKind::SetVersion), spec_u32_to_le_bytes(0x0Fu32))
        + frame_bytes(
        server_kind_code(ServerMessageKind::MovieAttribute),
        "movie".spec_bytes() + seq![0u8] + path + seq![0u8],
    ) + frame_bytes(
        server_kind_code(ServerMessageKind::MovieAttribute),
        "password".spec_bytes() + seq![0u8] + password + seq![0u8],
    )
}

/// A suspend notification: the reason code, then the call-stack payload.
pub open spec fn suspend_frame(reason: SuspendReason, cs: CallStack) -> Seq<u8> {
    frame_bytes(
        server_kind_code(ServerMessageKind::SuspendReason),
        spec_u16_to_le_bytes(suspend_reason_code(reason)) + call_stack_bytes(cs),
    )
}

/// Whether a call-stack snapshot fits one frame: the count fits sixteen
/// bits and every frame name is short enough for the payload's 32-bit
/// length prefix.
pub open spec fn stack_fits(cs: CallStack) -> bool {
    &&& cs.nodes@.len() <= 0xFFFF
    &&& forall|i: int| 0 <= i < cs.nodes@.len() ==> node_name_bytes(#[trigger] cs.nodes@[i]).len()
        <= 0x7FFF
}

/// What handling one complete packet of a recognized kind does. Yields the
/// new properties, the new squelch flag, the remaining body, the frames
/// sent when attached, the resume flag, and whether the payload was
/// well-formed. A recognized kind without a handler is acknowledged and
/// ignored.
pub open spec fn execute_spec(pre: RemoteDebuggerBackend, kind: ClientMessageKind, body: Seq<u8>)
    -> (DebuggerProperties, bool, Seq<u8>, Seq<u8>, bool, bool) {
    match kind {
        ClientMessageKind::SetDebugOption => {
            let (p2, rest, frames, ok) = set_debug_option_spec(pre.properties, body);
            (p2, pre.squelch, rest, frames, false, ok)
        },
        ClientMessageKind::GetDebugOption => {
            let (rest, frames, ok) = get_debug_option_spec(pre.properties, body);
            (pre.properties, pre.squelch, rest, frames, false, ok)
        },
        ClientMessageKind::SetSquelch => {
            let (sq2, rest, frames, ok) = set_squelch_spec(pre.squelch, body);
            (pre.properties, sq2, rest, frames, false, ok)
        },
        ClientMessageKind::GetInfo => (
            pre.properties,
            pre.squelch,
            body,
            swf_info_frame(pre.movies@),
            false,
            true,
        ),
        ClientMessageKind::GetContent => (
            pre.properties,
            pre.squelch,
            body,
            empty_image_frame(),
            false,
            true,
        ),
        ClientMessageKind::GetDebugContent => (
            pre.properties,
            pre.squelch,
            body,
            empty_image_frame(),
            false,
            true,
        ),
        ClientMessageKind::Continue => (
            pre.properties,
            pre.squelch,
            body,
            Seq::<u8>::empty(),
            true,
            true,
        ),
        _ => (pre.properties, pre.squelch, body, Seq::<u8>::empty(), false, true),
    }
}

/// What dispatching one complete packet does, unknown kind codes
/// included: the new properties, the new squelch flag, the frames sent,
/// and the resume flag. An unknown code or a malformed payload changes
/// nothing and never resumes.
pub open spec fn dispatch_spec(pre: RemoteDebuggerBackend, code: u32, body: Seq<u8>)
    -> (DebuggerProperties, bool, Seq<u8>, bool) {
    match spec_client_kind_from_u32(code) {
        None => (pre.properties, pre.squelch, Seq::<u8>::empty(), false),
        Some(kind) => {
            let (p2, sq2, rest, frames, resume, ok) = execute_spec(pre, kind, body);
            (p2, sq2, frames, if ok { resume } else { false })
        },
    }
}

/// How one `tick` changes the session. With no transport or no bytes,
/// nothing happens. Otherwise, awaiting a header, the eight bytes give the
/// declared body length and the kind code, and the body buffer is sized to
/// that length; awaiting a body, the packet is dispatched, both the body
/// buffer and the in-flight kind are cleared, and the reply frames are
/// appended.
pub open spec fn tick_transition(
    pre: RemoteDebuggerBackend,
    post: RemoteDebuggerBackend,
    input: Option<Vec<u8>>,
    out_pre: Seq<u8>,
    out_post: Seq<u8>,
    r: Option<bool>,
) -> bool {
    &&& post == (RemoteDebuggerBackend {
        properties: post.properties,
        squelch: post.squelch,
        packet_kind: post.packet_kind,
        data: post.data,
        ..pre
    })
    &&& ((!pre.connected || input is None) ==> post == pre && out_post == out_pre && r is None)
    &&& (input matches Some(buf) ==> (pre.connected ==> (match pre.packet_kind {
        None => {
            &&& post.packet_kind == Some(spec_u32_from_le_bytes(buf@.subrange(4, 8)))
            &&& bytes_mut_view(post.data) == Seq::new(
                spec_u32_from_le_bytes(buf@.subrange(0, 4)) as nat,
                |k: int| 0u8,
            )
            &&& post.properties == pre.properties
            &&& post.squelch == pre.squelch
            &&& out_post == out_pre
            &&& r == Some(false)
        },
        Some(code) => {
            let (p2, sq2, frames, resume) = dispatch_spec(pre, code, buf@);
            &&& post.packet_kind is None
            &&& bytes_mut_view(post.data).len() == 0
            &&& post.properties == p2
            &&& post.squelch == sq2
            &&& out_post == out_pre + frames
            &&& r == Some(resume)
        },
    })))
}

/// How attaching changes the session: it is marked connected and the
/// greeting frames are emitted.
pub open spec fn connect_transition(
    pre: RemoteDebuggerBackend,
    post: RemoteDebuggerBackend,
    password: Seq<u8>,
    out_pre: Seq<u8>,
    out_post: Seq<u8>,
    r: bool,
) -> bool {
    &&& post == (RemoteDebuggerBackend { connected: true, ..pre })
    &&& out_post == out_pre + greeting_bytes(encode_utf8(pre.path@), password)
    &&& r == true
}

impl RemoteDebuggerBackend {
    /// Dispatch one complete packet body of a recognized kind.
    pub fn execute(&mut self, kind: ClientMessageKind, out: &mut Vec<u8>) -> (r: Option<bool>)
        requires
            old(self).movies@.len() <= 0xFFFF,
        ensures
            *final(self) == (RemoteDebuggerBackend {
                properties: final(self).properties,
                squelch: final(self).squelch,
                data: final(self).data,
                ..*old(self)
            }),
            ({
                let (p2, sq2, rest, frames, resume, ok) = execute_spec(
                    *old(self),
                    kind,
                    bytes_mut_view(old(self).data),
                );
                &&& final(self).properties == p2
                &&& final(self).squelch == sq2
                &&& bytes_mut_view(final(self).data) == rest
                &&& final(out)@ == old(out)@ + (if old(self).connected {
                    frames
                } else {
                    Seq::<u8>::empty()
                })
                &&& r == (if ok {
                    Option::Some(resume)
                } else {
                    Option::<bool>::None
                })
            }),
    {
        match kind {
            ClientMessageKind::SetDebugOption => match self.set_debug_option(out) {
                Some(_) => Some(false),
                None => None,
            },
            ClientMessageKind::GetDebugOption => match self.get_debug_option(out) {
                Some(_) => Some(false),
                None => None,
            },
            ClientMessageKind::SetSquelch => match self.set_squelch(out) {
                Some(_) => Some(false),
                None => None,
            },
            ClientMessageKind::GetInfo => match self.get_info(out) {
                Some(_) => Some(false),
                None => None,
            },
            ClientMessageKind::GetContent => match self.get_content(out) {
                Some(_) => Some(false),
                None => None,
            },
            ClientMessageKind::GetDebugContent => match self.get_debug_content(out) {
                Some(_) => Some(false),
                None => None,
            },
            ClientMessageKind::Continue => {
                proof {
                    assert(out@ =~= old(out)@ + Seq::<u8>::empty());
                }
                Some(true)
            },
            _ => {
                proof {
                    assert(out@ =~= old(out)@ + Seq::<u8>::empty());
                }
                Some(false)
            },
        }
    }

    /// Drive the packet loop one step with what the host read: nothing, a
    /// header, or a body.
    pub fn tick(&mut self, input: Option<Vec<u8>>, out: &mut Vec<u8>) -> (r: Option<bool>)
        requires
            old(self).wf(),
            input matches Some(buf) ==> buf@.len() == old(self).spec_expected_read_len(),
        ensures
            final(self).wf(),
            tick_transition(*old(self), *final(self), input, old(out)@, final(out)@, r),
    {
        if !self.connected {
            return None;
        }
        let buf = match input {
            Some(b) => b,
            None => {
                return None;
            },
        };
        match self.packet_kind {
            Some(code) => {
                bm_clear(&mut self.data);
                bm_extend_from_slice(&mut self.data, buf.as_slice());
                self.packet_kind = None;
                let resume = match ClientMessageKind::from_u32(code) {
                    Some(kind) => match self.execute(kind, out) {
                        Some(b) => b,
                        None => false,
                    },
                    None => {
                        proof {
                            assert(out@ =~= old(out)@ + Seq::<u8>::empty());
                        }
                        false
                    },
                };
                bm_clear(&mut self.data);
                Some(resume)
            },
            None => {
                let slice = buf.as_slice();
                let length = u32_from_le_bytes(slice_subrange(slice, 0, 4));
                let code = u32_from_le_bytes(slice_subrange(slice, 4, 8));
                bm_resize(&mut self.data, length as usize, 0u8);
                self.packet_kind = Some(code);
                proof {
                    assert(bytes_mut_view(self.data) =~= Seq::new(length as nat, |k: int| 0u8));
                }
                Some(false)
            },
        }
    }

    /// Note the attached transport and send the greeting: the protocol
    /// version, the movie attribute with the session's path, and the
    /// password attribute. The host calls this once its connection attempt
    /// has succeeded.
    pub fn connect(&mut self, password: &str, out: &mut Vec<u8>) -> (r: bool)
        requires
            old(self).wf(),
            password.spec_bytes().len() <= 0xFFFF,
        ensures
            final(self).wf(),
            connect_transition(
                *old(self),
                *final(self),
                password.spec_bytes(),
                old(out)@,
                final(out)@,
                r,
            ),
    {
        self.connected = true;
        proof {
            lemma_option_text_lens();
            vstd::bytes::lemma_auto_spec_u32_to_from_le_bytes();
        }
        let mut b = DebugBuilder::new(ServerMessageKind::SetVersion);
        b.add(0x0Fu32);
        b.send(out);
        let mut b2 = DebugBuilder::new(ServerMessageKind::MovieAttribute);
        b2.add("movie");
        b2.add(self.path.as_str());
        b2.send(out);
        let mut b3 = DebugBuilder::new(ServerMessageKind::MovieAttribute);
        b3.add("password");
        b3.add(password);
        b3.send(out);
        proof {
            assert(out@ =~= old(out)@ + greeting_bytes(
                encode_utf8(old(self).path@),
                password.spec_bytes(),
            ));
        }
        true
    }

    /// Append a loaded movie; its position is its wire index.
    pub fn add_movie(&mut self, movie: MovieHandle)
        requires
            old(self).wf(),
            old(self).movies@.len() < 0xFFFF,
        ensures
            final(self).wf(),
            *final(self) == (RemoteDebuggerBackend { movies: final(self).movies, ..*old(self) }),
            final(self).movies@ == old(self).movies@.push(movie),
    {
        self.movies.push(movie)
    }

    /// Whether a breakpoint is registered at `pc`: true exactly when
    /// symbols are present and hold an entry for it. The host suspends on
    /// a hit.
    pub fn on_position(&mut self, pc: u32) -> (r: bool)
        ensures
            *final(self) == *old(self),
            r == (old(self).swd matches Some(sym) && find_breakpoint(sym.breakpoints@, pc)
                is Some),
    {
        match &self.swd {
            Some(sym) => sym.resolve_breakpoint(pc).is_some(),
            None => false,
        }
    }

    /// Announce a loaded script: a suspend notification carrying the
    /// call-stack snapshot.
    pub fn on_script_loaded(&mut self, call_stack: &CallStack, out: &mut Vec<u8>)
        requires
            old(self).wf(),
            stack_fits(*call_stack),
        ensures
            final(self).wf(),
            *final(self) == *old(self),
            final(out)@ == old(out)@ + (if old(self).connected {
                suspend_frame(SuspendReason::ScriptLoaded, *call_stack)
            } else {
                Seq::<u8>::empty()
            }),
    {
        if self.connected {
            let mut b = DebugBuilder::new(ServerMessageKind::SuspendReason);
            b.add(SuspendReason::ScriptLoaded.to_u16());
            b.add(call_stack);
            proof {
                vstd::bytes::lemma_auto_spec_u16_to_from_le_bytes();
                vstd::bytes::lemma_auto_spec_u32_to_from_le_bytes();
                lemma_stack_frames_len_bound(call_stack.nodes@, 0x7FFF);
                assert(call_stack.nodes@.len() * (13 + 0x7FFF) <= 0xFFFF * (13 + 0x7FFF))
                    by (nonlinear_arith)
                    requires
                        call_stack.nodes@.len() <= 0xFFFF,
                ;
            }
            b.send(out);
        } else {
            proof {
                assert(out@ =~= old(out)@ + Seq::<u8>::empty());
            }
        }
    }
}

} // verus!
