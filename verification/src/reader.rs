//! Specification of the payload reader: how typed fields are pulled off the
//! front of a packet body. The executable readers live on the session type;
//! their contracts are stated with the functions here.

use vstd::prelude::*;
use vstd::bytes::spec_u32_from_le_bytes;
use vstd::string::StringSliceAdditionalSpecFns;

verus! {

/// The index of the first NUL byte of `s`, if any.
pub open spec fn first_nul(s: Seq<u8>) -> Option<int>
    decreases s.len(),
{
    if s.len() == 0 {
        None
    } else if s[0] == 0 {
        Some(0)
    } else {
        match first_nul(s.skip(1)) {
            Some(i) => Some(i + 1),
            None => None,
        }
    }
}

/// What `first_nul` returns: the position of a NUL with none before it, or
/// nothing when `s` has no NUL at all.
pub proof fn lemma_first_nul_props(s: Seq<u8>)
    ensures
        match first_nul(s) {
            Some(i) => 0 <= i < s.len() && s[i] == 0 && (forall|j: int|
                0 <= j < i ==> #[trigger] s[j] != 0),
            None => forall|j: int| 0 <= j < s.len() ==> #[trigger] s[j] != 0,
        },
    decreases s.len(),
{
    if s.len() == 0 {
    } else if s[0] == 0 {
    } else {
        let t = s.skip(1);
        lemma_first_nul_props(t);
        assert(forall|j: int| 0 <= j < t.len() ==> #[trigger] t[j] == s[j + 1]);
        match first_nul(t) {
            Some(i) => {
                assert(s[i + 1] == t[i]);
                assert(forall|j: int| 1 <= j < i + 1 ==> #[trigger] s[j] == t[j - 1]);
            },
            None => {
                assert(forall|j: int| 1 <= j < s.len() ==> #[trigger] s[j] == t[j - 1]);
            },
        }
    }
}

/// A NUL at `i` with none before it is the first NUL.
pub proof fn lemma_first_nul_at(s: Seq<u8>, i: int)
    requires
        0 <= i < s.len(),
        s[i] == 0,
        forall|j: int| 0 <= j < i ==> #[trigger] s[j] != 0,
    ensures
        first_nul(s) == Some(i),
    decreases i,
{
    if i == 0 {
    } else {
        lemma_first_nul_at(s.skip(1), i - 1);
    }
}

/// Reading a 32-bit little-endian integer: nothing if fewer than four bytes
/// remain, else the value of the first four bytes and the rest.
pub open spec fn take_u32(s: Seq<u8>) -> Option<(u32, Seq<u8>)> {
    if s.len() >= 4 {
        Some((spec_u32_from_le_bytes(s.take(4)), s.skip(4)))
    } else {
        None
    }
}

/// Reading a NUL-terminated string: nothing if `s` holds no NUL, else the
/// bytes before the first NUL and the rest after it.
pub open spec fn take_string(s: Seq<u8>) -> Option<(Seq<u8>, Seq<u8>)> {
    match first_nul(s) {
        Some(i) => Some((s.take(i), s.skip(i + 1))),
        None => None,
    }
}

/// Reading an on/off switch: a string that must be exactly `on` or `off`.
pub open spec fn take_switch(s: Seq<u8>) -> Option<(bool, Seq<u8>)> {
    match take_string(s) {
        Some((v, rest)) => if v == "on".spec_bytes() {
            Some((true, rest))
        } else if v == "off".spec_bytes() {
            Some((false, rest))
        } else {
            None
        },
        None => None,
    }
}

} // verus!
