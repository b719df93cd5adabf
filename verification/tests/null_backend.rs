//! The no-op backend satisfies the facade without doing anything.

use remote_debugger::backend::{DebuggerBackend, NullDebuggerBackend};
use remote_debugger::callstack::{CallNode, CallStack};
use remote_debugger::debugger::MovieHandle;

#[test]
fn null_backend_does_nothing() {
    let mut dbg = NullDebuggerBackend;
    let mut out = Vec::new();
    assert_eq!(dbg.tick(Some(vec![0; 8]), &mut out), None);
    assert!(!dbg.connect("hunter2", &mut out));
    dbg.add_movie(MovieHandle { id: 1, uncompressed_len: 2 });
    assert!(!dbg.on_position(0x10));
    let stack = CallStack { nodes: vec![CallNode::GlobalInit] };
    dbg.on_script_loaded(&stack, &mut out);
    assert_eq!(out, Vec::<u8>::new());
}
