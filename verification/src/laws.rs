//! Protocol laws: the invariants the adapter guarantees, stated and proved
//! over the same specification functions its contracts use.

use vstd::prelude::*;
use vstd::string::StringSliceAdditionalSpecFns;
use vstd::bytes::{
    spec_u32_to_le_bytes, spec_u32_from_le_bytes, lemma_auto_spec_u32_to_from_le_bytes,
};
use crate::serialize::frame_bytes;
use crate::reader::{take_u32, take_string, take_switch, lemma_first_nul_at};
use crate::message::{ClientMessageKind, spec_client_kind_from_u32};
use crate::decimal::spec_digits;
use crate::debugger::{
    bool_str, bool_option_step, dispatch_spec, get_debug_option_spec, is_bool_option,
    is_timeout_option, lookup_option_value, option_frame, set_bool_option, set_debug_option_spec,
    set_timeout_option, switch_value, DebuggerProperties, RemoteDebuggerBackend,
};

verus! {

/// A framed message is its payload's byte length, then the kind code, then
/// the payload, and the length prefix counts exactly the payload bytes.
pub proof fn lemma_frame_shape(code: u32, payload: Seq<u8>)
    requires
        payload.len() <= u32::MAX,
    ensures
        frame_bytes(code, payload).len() == 8 + payload.len(),
        spec_u32_from_le_bytes(frame_bytes(code, payload).subrange(0, 4)) == payload.len(),
        spec_u32_from_le_bytes(frame_bytes(code, payload).subrange(4, 8)) == code,
        frame_bytes(code, payload).skip(8) == payload,
{
    lemma_auto_spec_u32_to_from_le_bytes();
    let w = frame_bytes(code, payload);
    assert(w.subrange(0, 4) =~= spec_u32_to_le_bytes(payload.len() as u32));
    assert(w.subrange(4, 8) =~= spec_u32_to_le_bytes(code));
    assert(w.skip(8) =~= payload);
}

/// Round trip for integers: reading a serialized 32-bit value recovers the
/// value and leaves the rest untouched.
pub proof fn lemma_u32_round_trip(v: u32, rest: Seq<u8>)
    ensures
        take_u32(spec_u32_to_le_bytes(v) + rest) == Some((v, rest)),
{
    lemma_auto_spec_u32_to_from_le_bytes();
    let w = spec_u32_to_le_bytes(v) + rest;
    assert(w.take(4) =~= spec_u32_to_le_bytes(v));
    assert(w.skip(4) =~= rest);
}

/// Round trip for strings: reading a serialized NUL-free string recovers
/// exactly its bytes and leaves the rest untouched. The empty string is a
/// lone NUL and round-trips like any other.
pub proof fn lemma_string_round_trip(s: Seq<u8>, rest: Seq<u8>)
    requires
        forall|j: int| 0 <= j < s.len() ==> s[j] != 0,
    ensures
        take_string(s + seq![0u8] + rest) == Some((s, rest)),
{
    let w = s + seq![0u8] + rest;
    assert(w[s.len() as int] == 0);
    assert(forall|j: int| 0 <= j < s.len() ==> w[j] == #[trigger] s[j]);
    lemma_first_nul_at(w, s.len() as int);
    assert(w.take(s.len() as int) =~= s);
    assert(w.skip(s.len() as int + 1) =~= rest);
}

/// The bytes a client sends for a switch value: `on` or `off`, then NUL.
pub open spec fn switch_bytes(b: bool) -> Seq<u8> {
    (if b {
        "on".spec_bytes()
    } else {
        "off".spec_bytes()
    }) + seq![0u8]
}

/// The concrete bytes of the two switch words.
proof fn lemma_switch_literals()
    ensures
        "on".spec_bytes() =~= seq![111u8, 110u8],
        "off".spec_bytes() =~= seq![111u8, 102u8, 102u8],
{
    reveal_strlit("on");
    reveal_strlit("off");
    assert forall|i: int| 0 <= i < "on"@.len() implies '\0' <= #[trigger] "on"@[i]
        <= '\u{7f}' by {
        if i == 0 {
            assert("on"@[0] == 'o');
        } else {
            assert("on"@[1] == 'n');
        }
    }
    assert forall|i: int| 0 <= i < "off"@.len() implies '\0' <= #[trigger] "off"@[i]
        <= '\u{7f}' by {
        if i == 0 {
            assert("off"@[0] == 'o');
        } else {
            assert("off"@[i] == 'f');
        }
    }
    assert(vstd::utf8::is_ascii_chars("on"@));
    assert(vstd::utf8::is_ascii_chars("off"@));
    vstd::utf8::is_ascii_chars_encode_utf8("on"@);
    vstd::utf8::is_ascii_chars_encode_utf8("off"@);
    assert("on".spec_bytes() =~= seq![111u8, 110u8]);
    assert("off".spec_bytes() =~= seq![111u8, 102u8, 102u8]);
}

/// Round trip for switches: reading a serialized switch recovers the
/// boolean and leaves the rest untouched.
pub proof fn lemma_switch_round_trip(b: bool, rest: Seq<u8>)
    ensures
        take_switch(switch_bytes(b) + rest) == Some((b, rest)),
{
    lemma_switch_literals();
    let lit = if b {
        "on".spec_bytes()
    } else {
        "off".spec_bytes()
    };
    assert(forall|j: int| 0 <= j < lit.len() ==> lit[j] != 0);
    lemma_string_round_trip(lit, rest);
    assert(switch_bytes(b) + rest =~= lit + seq![0u8] + rest);
    assert(switch_value(lit) == Some(b));
}

/// Setting a boolean option and then looking it up yields exactly the
/// value that was set, in its text form.
pub proof fn lemma_bool_option_set_then_get(p: DebuggerProperties, name: Seq<u8>, b: bool)
    requires
        is_bool_option(name),
    ensures
        lookup_option_value(set_bool_option(p, name, b), name) == Some(bool_str(b)),
{
}

/// No timeout option is spelled like a boolean option.
proof fn lemma_timeout_names_not_bool()
    ensures
        !is_bool_option("getter_timeout".spec_bytes()),
        !is_bool_option("setter_timeout".spec_bytes()),
{
    reveal_strlit("disable_script_stuck_dialog");
    reveal_strlit("disable_script_stuck");
    reveal_strlit("break_on_fault");
    reveal_strlit("enumerate_override");
    reveal_strlit("notify_on_failure");
    reveal_strlit("invoke_setters");
    reveal_strlit("wide_line_player");
    reveal_strlit("wide_line_debugger");
    reveal_strlit("swf_load_messages");
    reveal_strlit("getter_timeout");
    reveal_strlit("setter_timeout");
    lemma_first_two_bytes("getter_timeout"@);
    lemma_first_two_bytes("setter_timeout"@);
    lemma_first_two_bytes("disable_script_stuck_dialog"@);
    lemma_first_two_bytes("disable_script_stuck"@);
    lemma_first_two_bytes("break_on_fault"@);
    lemma_first_two_bytes("enumerate_override"@);
    lemma_first_two_bytes("notify_on_failure"@);
    lemma_first_two_bytes("invoke_setters"@);
    lemma_first_two_bytes("wide_line_player"@);
    lemma_first_two_bytes("wide_line_debugger"@);
    lemma_first_two_bytes("swf_load_messages"@);
}

/// For a string of at least two ASCII-leading characters, the first two
/// encoded bytes are those characters.
proof fn lemma_first_two_bytes(chars: Seq<char>)
    requires
        chars.len() >= 2,
        chars[0] as u32 <= 0x7F,
        chars[1] as u32 <= 0x7F,
    ensures
        vstd::utf8::encode_utf8(chars).len() >= 2,
        vstd::utf8::encode_utf8(chars)[0] == (chars[0] as u32) as u8,
        vstd::utf8::encode_utf8(chars)[1] == (chars[1] as u32) as u8,
{
    let tail = chars.drop_first();
    assert(vstd::utf8::encode_utf8(chars) == vstd::utf8::encode_scalar(chars[0] as u32)
        + vstd::utf8::encode_utf8(tail));
    let c0 = chars[0] as u32;
    assert(c0 & 0x7F == c0) by (bit_vector)
        requires
            c0 <= 0x7F,
    ;
    assert(vstd::utf8::encode_scalar(c0) =~= seq![c0 as u8]) by {
        assert(vstd::utf8::has_width_1_encoding(c0));
    }
    assert(vstd::utf8::encode_utf8(tail) == vstd::utf8::encode_scalar(tail[0] as u32)
        + vstd::utf8::encode_utf8(tail.drop_first()));
    assert(tail[0] == chars[1]);
    let c1 = chars[1] as u32;
    assert(c1 & 0x7F == c1) by (bit_vector)
        requires
            c1 <= 0x7F,
    ;
    assert(vstd::utf8::encode_scalar(c1) =~= seq![c1 as u8]) by {
        assert(vstd::utf8::has_width_1_encoding(c1));
    }
}

/// Setting a timeout option and then looking it up yields exactly the
/// value that was set, printed in decimal.
pub proof fn lemma_timeout_option_set_then_get(p: DebuggerProperties, name: Seq<u8>, v: u32)
    requires
        is_timeout_option(name),
    ensures
        lookup_option_value(set_timeout_option(p, name, v), name) == Some(
            spec_digits(v as nat),
        ),
{
    lemma_timeout_names_not_bool();
}

/// Option set/get is idempotent end to end: a well-formed set request for
/// a boolean option stores the switch's value and echoes it, and a
/// following get request echoes the very same reply.
pub proof fn lemma_set_then_get_option(p: DebuggerProperties, name: Seq<u8>, b: bool)
    requires
        is_bool_option(name),
        forall|j: int| 0 <= j < name.len() ==> name[j] != 0,
    ensures
        ({
            let (p2, rest, frames, ok) = set_debug_option_spec(
                p,
                name + seq![0u8] + switch_bytes(b),
            );
            &&& ok
            &&& p2 == set_bool_option(p, name, b)
            &&& frames == option_frame(name, bool_str(b))
            &&& rest == Seq::<u8>::empty()
            &&& get_debug_option_spec(p2, name + seq![0u8]) == (
                Seq::<u8>::empty(),
                option_frame(name, bool_str(b)),
                true,
            )
        }),
{
    lemma_switch_literals();
    lemma_string_round_trip(name, switch_bytes(b));
    let lit = if b {
        "on".spec_bytes()
    } else {
        "off".spec_bytes()
    };
    assert(forall|j: int| 0 <= j < lit.len() ==> lit[j] != 0);
    lemma_string_round_trip(lit, Seq::<u8>::empty());
    assert(switch_bytes(b) =~= lit + seq![0u8] + Seq::<u8>::empty());
    assert(switch_value(lit) == Some(b));
    let p2 = set_bool_option(p, name, b);
    lemma_bool_option_set_then_get(p, name, b);
    lemma_string_round_trip(name, Seq::<u8>::empty());
    assert(name + seq![0u8] =~= name + seq![0u8] + Seq::<u8>::empty());
}

/// A malformed switch for a boolean option is consumed but leaves the
/// option unchanged, fails the request, and sends nothing.
pub proof fn lemma_malformed_switch_keeps_option(
    p: DebuggerProperties,
    name: Seq<u8>,
    junk: Seq<u8>,
    rest: Seq<u8>,
)
    requires
        is_bool_option(name),
        forall|j: int| 0 <= j < junk.len() ==> junk[j] != 0,
        switch_value(junk) is None,
    ensures
        bool_option_step(p, name, junk + seq![0u8] + rest) == (
            p,
            rest,
            Seq::<u8>::empty(),
            false,
        ),
{
    lemma_string_round_trip(junk, rest);
}

/// `Continue` is the only message that resumes: dispatching a packet
/// yields a true resume flag exactly when its code is the `Continue` code.
pub proof fn lemma_continue_alone_resumes(
    pre: RemoteDebuggerBackend,
    code: u32,
    body: Seq<u8>,
)
    ensures
        dispatch_spec(pre, code, body).3 == (spec_client_kind_from_u32(code) == Some(
            ClientMessageKind::Continue,
        )),
{
}

/// A packet whose code names no known message changes nothing, answers
/// nothing and never resumes; its body is still consumed.
pub proof fn lemma_unknown_code_ignored(pre: RemoteDebuggerBackend, code: u32, body: Seq<u8>)
    requires
        spec_client_kind_from_u32(code) is None,
    ensures
        dispatch_spec(pre, code, body) == (
            pre.properties,
            pre.squelch,
            Seq::<u8>::empty(),
            false,
        ),
{
}

} // verus!
