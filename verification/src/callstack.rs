//! A call-stack snapshot as handed over by the host, and its payload
//! serialization for suspend notifications.
//!
//! The payload is the frame count, then the frames with the node list in
//! reverse: for each frame a line number of `0xFFFF`, zero flags, a zero
//! 64-bit offset, and the frame's name with its NUL.

use vstd::prelude::*;
use vstd::string::StringSliceAdditionalSpecFns;
use vstd::utf8::encode_utf8;
use vstd::bytes::{
    spec_u16_to_le_bytes, spec_u32_to_le_bytes, spec_u64_to_le_bytes, u16_to_le_bytes,
    u32_to_le_bytes, u64_to_le_bytes,
};
use crate::serialize::{append_bytes, DebuggerSerialize};

verus! {

/// One entry of a call stack: the synthetic bootstrap frame, or a method
/// with its fully-qualified name as produced by the host.
#[derive(Debug)]
pub enum CallNode {
    GlobalInit,
    Method(String),
}

/// A call-stack snapshot; the last node is the innermost frame.
#[derive(Debug)]
pub struct CallStack {
    pub nodes: Vec<CallNode>,
}

/// The bytes of a frame's name, without the terminating NUL.
pub open spec fn node_name_bytes(n: CallNode) -> Seq<u8> {
    match n {
        CallNode::GlobalInit => "global$init".spec_bytes(),
        CallNode::Method(name) => encode_utf8(name@),
    }
}

/// One serialized frame: line `0xFFFF`, flags `0`, a zero pointer-sized
/// offset, then the name and its NUL.
pub open spec fn frame_entry_bytes(n: CallNode) -> Seq<u8> {
    spec_u16_to_le_bytes(0xFFFFu16) + spec_u16_to_le_bytes(0u16) + spec_u64_to_le_bytes(0u64)
        + node_name_bytes(n) + seq![0u8]
}

/// The serialized frames: the node list in reverse, innermost first.
pub open spec fn stack_frames_bytes(nodes: Seq<CallNode>) -> Seq<u8>
    decreases nodes.len(),
{
    if nodes.len() == 0 {
        Seq::empty()
    } else {
        frame_entry_bytes(nodes.last()) + stack_frames_bytes(nodes.drop_last())
    }
}

/// The whole call-stack payload: frame count, then the frames.
pub open spec fn call_stack_bytes(cs: CallStack) -> Seq<u8> {
    spec_u32_to_le_bytes(cs.nodes@.len() as u32) + stack_frames_bytes(cs.nodes@)
}

/// With every frame name at most `cap` bytes, the serialized frames take
/// at most `13 + cap` bytes each.
pub proof fn lemma_stack_frames_len_bound(nodes: Seq<CallNode>, cap: int)
    requires
        cap >= 0,
        forall|i: int| 0 <= i < nodes.len() ==> node_name_bytes(#[trigger] nodes[i]).len() <= cap,
    ensures
        stack_frames_bytes(nodes).len() <= nodes.len() * (13 + cap),
    decreases nodes.len(),
{
    vstd::bytes::lemma_auto_spec_u16_to_from_le_bytes();
    vstd::bytes::lemma_auto_spec_u64_to_from_le_bytes();
    if nodes.len() > 0 {
        let rest = nodes.drop_last();
        assert(forall|i: int| 0 <= i < rest.len() ==> node_name_bytes(#[trigger] rest[i]).len()
            <= cap);
        lemma_stack_frames_len_bound(rest, cap);
        assert(node_name_bytes(nodes.last()).len() <= cap);
        assert(rest.len() * (13 + cap) + (13 + cap) == nodes.len() * (13 + cap))
            by (nonlinear_arith)
            requires
                rest.len() + 1 == nodes.len(),
        ;
    }
}

impl<'a> DebuggerSerialize for &'a CallStack {
    open spec fn ser_bytes(&self) -> Seq<u8> {
        call_stack_bytes(**self)
    }

    fn debug_serialize(&self, output: &mut Vec<u8>) {
        let count = #[verifier::truncate] (self.nodes.len() as u32);
        let cb = u32_to_le_bytes(count);
        append_bytes(output, cb.as_slice());
        let mut i: usize = self.nodes.len();
        proof {
            assert(self.nodes@.take(i as int) =~= self.nodes@);
            assert(output@ + stack_frames_bytes(self.nodes@.take(i as int)) =~= old(output)@
                + self.ser_bytes());
        }
        while i > 0
            invariant
                i <= self.nodes@.len(),
                output@ + stack_frames_bytes(self.nodes@.take(i as int)) == old(output)@
                    + self.ser_bytes(),
            decreases i,
        {
            i = i - 1;
            let lb = u16_to_le_bytes(0xFFFFu16);
            append_bytes(output, lb.as_slice());
            let fb = u16_to_le_bytes(0u16);
            append_bytes(output, fb.as_slice());
            let ob = u64_to_le_bytes(0u64);
            append_bytes(output, ob.as_slice());
            let ghost mid = output@;
            match &self.nodes[i] {
                CallNode::GlobalInit => {
                    append_bytes(output, "global$init".as_bytes());
                },
                CallNode::Method(name) => {
                    append_bytes(output, name.as_str().as_bytes());
                },
            }
            output.push(0u8);
            proof {
                assert(output@ =~= mid + node_name_bytes(self.nodes@[i as int]) + seq![0u8]);
                assert(self.nodes@.take(i + 1).last() == self.nodes@[i as int]);
                assert(self.nodes@.take(i + 1).drop_last() =~= self.nodes@.take(i as int));
                assert(output@ + stack_frames_bytes(self.nodes@.take(i as int)) =~= old(output)@
                    + self.ser_bytes());
            }
        }
        proof {
            assert(self.nodes@.take(0) =~= Seq::<CallNode>::empty());
            assert(output@ =~= old(output)@ + self.ser_bytes());
        }
    }
}

} // verus!
