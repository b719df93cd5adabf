//! The wire codec: typed serialization of payload fields and the framed
//! message builder.
//!
//! A message on the wire is `len u32 LE ‖ kind u32 LE ‖ payload`, where `len`
//! counts only the payload bytes. Integers are little-endian; a string is its
//! raw bytes followed by a single NUL; a bool is one byte, `0` or `1`;
//! pointer-sized values are sent as 64 bits.

use vstd::prelude::*;
use vstd::string::StringSliceAdditionalSpecFns;
use vstd::bytes::{
    spec_u16_to_le_bytes, spec_u32_to_le_bytes, spec_u64_to_le_bytes, u16_to_le_bytes,
    u32_to_le_bytes, u64_to_le_bytes,
};
use crate::message::{server_kind_code, ServerMessageKind};

verus! {

/// Append a copy of `src` to `out`.
pub fn append_bytes(out: &mut Vec<u8>, src: &[u8])
    ensures
        final(out)@ == old(out)@ + src@,
{
    let mut i: usize = 0;
    while i < src.len()
        invariant
            i <= src@.len(),
            out@ == old(out)@ + src@.take(i as int),
        decreases src@.len() - i,
    {
        out.push(src[i]);
        i = i + 1;
        proof {
            assert(out@ =~= old(out)@ + src@.take(i as int));
        }
    }
    proof {
        assert(src@.take(src@.len() as int) =~= src@);
    }
}

/// A value that can be serialized into a message payload.
pub trait DebuggerSerialize {
    /// The exact bytes this value contributes to a payload.
    spec fn ser_bytes(&self) -> Seq<u8>;

    /// Append this value's serialized form to `output`.
    fn debug_serialize(&self, output: &mut Vec<u8>)
        ensures
            final(output)@ == old(output)@ + self.ser_bytes(),
    ;
}

impl DebuggerSerialize for u8 {
    open spec fn ser_bytes(&self) -> Seq<u8> {
        seq![*self]
    }

    fn debug_serialize(&self, output: &mut Vec<u8>) {
        output.push(*self);
    }
}

impl DebuggerSerialize for u16 {
    open spec fn ser_bytes(&self) -> Seq<u8> {
        spec_u16_to_le_bytes(*self)
    }

    fn debug_serialize(&self, output: &mut Vec<u8>) {
        let b = u16_to_le_bytes(*self);
        append_bytes(output, b.as_slice());
    }
}

impl DebuggerSerialize for u32 {
    open spec fn ser_bytes(&self) -> Seq<u8> {
        spec_u32_to_le_bytes(*self)
    }

    fn debug_serialize(&self, output: &mut Vec<u8>) {
        let b = u32_to_le_bytes(*self);
        append_bytes(output, b.as_slice());
    }
}

impl DebuggerSerialize for usize {
    open spec fn ser_bytes(&self) -> Seq<u8> {
        spec_u64_to_le_bytes(*self as u64)
    }

    fn debug_serialize(&self, output: &mut Vec<u8>) {
        let b = u64_to_le_bytes(*self as u64);
        append_bytes(output, b.as_slice());
    }
}

impl DebuggerSerialize for bool {
    open spec fn ser_bytes(&self) -> Seq<u8> {
        seq![if *self { 1u8 } else { 0u8 }]
    }

    fn debug_serialize(&self, output: &mut Vec<u8>) {
        output.push(if *self { 1u8 } else { 0u8 });
    }
}

impl<'a> DebuggerSerialize for &'a [u8] {
    open spec fn ser_bytes(&self) -> Seq<u8> {
        (*self)@ + seq![0u8]
    }

    fn debug_serialize(&self, output: &mut Vec<u8>) {
        append_bytes(output, self);
        output.push(0u8);
        proof {
            assert(output@ =~= old(output)@ + self.ser_bytes());
        }
    }
}

impl<'a> DebuggerSerialize for &'a str {
    open spec fn ser_bytes(&self) -> Seq<u8> {
        self.spec_bytes() + seq![0u8]
    }

    fn debug_serialize(&self, output: &mut Vec<u8>) {
        append_bytes(output, self.as_bytes());
        output.push(0u8);
        proof {
            assert(output@ =~= old(output)@ + self.ser_bytes());
        }
    }
}

/// A UTF-8 encoding takes at most four bytes per character.
pub proof fn lemma_encode_utf8_len_bound(chars: Seq<char>)
    ensures
        vstd::utf8::encode_utf8(chars).len() <= 4 * chars.len(),
    decreases chars.len(),
{
    if chars.len() > 0 {
        lemma_encode_utf8_len_bound(chars.drop_first());
        assert(vstd::utf8::encode_scalar(chars[0] as u32).len() <= 4);
    }
}

/// The empty string serializes to no bytes.
pub proof fn lemma_empty_str_bytes()
    ensures
        "".spec_bytes() == Seq::<u8>::empty(),
{
    reveal_strlit("");
    assert(""@ =~= Seq::<char>::empty());
    assert("".spec_bytes() =~= Seq::<u8>::empty());
}

/// The framed encoding of a message: a length prefix counting exactly the
/// payload bytes, then the kind code, then the payload.
pub open spec fn frame_bytes(code: u32, payload: Seq<u8>) -> Seq<u8>
    recommends
        payload.len() <= u32::MAX,
{
    spec_u32_to_le_bytes(payload.len() as u32) + spec_u32_to_le_bytes(code) + payload
}

/// Builds one framed message: fix the kind, append typed fields, then write
/// the framed bytes to an output buffer.
pub struct DebugBuilder {
    pub kind: ServerMessageKind,
    pub data: Vec<u8>,
}

impl DebugBuilder {
    /// Start a message of the given kind with an empty payload.
    pub fn new(kind: ServerMessageKind) -> (r: DebugBuilder)
        ensures
            r.kind == kind,
            r.data@ == Seq::<u8>::empty(),
    {
        DebugBuilder { kind, data: Vec::new() }
    }

    /// Append one typed field to the payload.
    pub fn add<T: DebuggerSerialize>(&mut self, f: T)
        ensures
            final(self).kind == old(self).kind,
            final(self).data@ == old(self).data@ + f.ser_bytes(),
    {
        f.debug_serialize(&mut self.data);
    }

    /// Write the framed message to `dst`: the payload's length, the kind's
    /// code, then the payload.
    pub fn send(self, dst: &mut Vec<u8>)
        requires
            self.data@.len() <= u32::MAX,
        ensures
            final(dst)@ == old(dst)@ + frame_bytes(server_kind_code(self.kind), self.data@),
    {
        let len = self.data.len() as u32;
        let lb = u32_to_le_bytes(len);
        append_bytes(dst, lb.as_slice());
        let kb = u32_to_le_bytes(self.kind.to_u32());
        append_bytes(dst, kb.as_slice());
        append_bytes(dst, self.data.as_slice());
        proof {
            assert(dst@ =~= old(dst)@ + frame_bytes(server_kind_code(self.kind), self.data@));
        }
    }
}

} // verus!
