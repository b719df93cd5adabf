//! Script-debug symbols: breakpoint entries decoded from a companion file.
//!
//! Decoding the file is the host's business; the adapter only holds the
//! decoded entries and maps program counters to breakpoints.

use vstd::prelude::*;

verus! {

/// One breakpoint entry: a bytecode offset and its source position.
#[derive(Clone, Copy, Debug, PartialEq, Eq, Structural)]
pub struct SwdEntry {
    pub offset: u32,
    pub module_id: u32,
    pub line: u32,
}

/// Decoded script-debug symbols.
#[derive(Debug)]
pub struct SwdSymbols {
    pub breakpoints: Vec<SwdEntry>,
}

/// The first entry whose offset equals `pc`, if any.
pub open spec fn find_breakpoint(entries: Seq<SwdEntry>, pc: u32) -> Option<SwdEntry>
    decreases entries.len(),
{
    if entries.len() == 0 {
        None
    } else if entries[0].offset == pc {
        Some(entries[0])
    } else {
        find_breakpoint(entries.skip(1), pc)
    }
}

/// An entry at `i` matching `pc`, with no earlier match, is the found one.
proof fn lemma_find_breakpoint_at(entries: Seq<SwdEntry>, pc: u32, i: int)
    requires
        0 <= i < entries.len(),
        entries[i].offset == pc,
        forall|j: int| 0 <= j < i ==> #[trigger] entries[j].offset != pc,
    ensures
        find_breakpoint(entries, pc) == Some(entries[i]),
    decreases i,
{
    if i > 0 {
        lemma_find_breakpoint_at(entries.skip(1), pc, i - 1);
    }
}

/// With no matching entry, nothing is found.
proof fn lemma_find_breakpoint_absent(entries: Seq<SwdEntry>, pc: u32)
    requires
        forall|j: int| 0 <= j < entries.len() ==> #[trigger] entries[j].offset != pc,
    ensures
        find_breakpoint(entries, pc) is None,
    decreases entries.len(),
{
    if entries.len() > 0 {
        lemma_find_breakpoint_absent(entries.skip(1), pc);
    }
}

impl SwdSymbols {
    /// Look up the first breakpoint registered at program counter `pc`.
    pub fn resolve_breakpoint(&self, pc: u32) -> (r: Option<SwdEntry>)
        ensures
            r == find_breakpoint(self.breakpoints@, pc),
    {
        let mut i: usize = 0;
        while i < self.breakpoints.len()
            invariant
                i <= self.breakpoints@.len(),
                forall|j: int| 0 <= j < i ==> #[trigger] self.breakpoints@[j].offset != pc,
            decreases self.breakpoints@.len() - i,
        {
            if self.breakpoints[i].offset == pc {
                proof {
                    lemma_find_breakpoint_at(self.breakpoints@, pc, i as int);
                }
                return Some(self.breakpoints[i]);
            }
            i = i + 1;
        }
        proof {
            lemma_find_breakpoint_absent(self.breakpoints@, pc);
        }
        None
    }
}

} // verus!
