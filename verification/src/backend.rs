//! The narrow surface the embedding host drives, and the no-op backend.
//!
//! Each method's behaviour is given by a spec function of the implementing
//! type, so the remote session and the null backend each carry their own
//! exact contract behind the shared interface.

use vstd::prelude::*;
use vstd::string::StringSliceAdditionalSpecFns;
use crate::callstack::CallStack;
use crate::debugger::{
    connect_transition, tick_transition, MovieHandle, RemoteDebuggerBackend,
};
use crate::swd::find_breakpoint;

verus! {

/// The interface the host drives: attach, advance I/O, register movies,
/// check breakpoints, announce script loads.
pub trait DebuggerBackend: Sized {
    /// The invariant this backend maintains across calls.
    spec fn backend_wf(self) -> bool;

    /// What `tick` demands of its input.
    spec fn tick_req(self, input: Option<Vec<u8>>) -> bool;

    /// What `tick` does.
    spec fn tick_post(
        self,
        post: Self,
        input: Option<Vec<u8>>,
        out_pre: Seq<u8>,
        out_post: Seq<u8>,
        r: Option<bool>,
    ) -> bool;

    /// What `connect` demands of the password.
    spec fn connect_req(self, password: &str) -> bool;

    /// What `connect` does.
    spec fn connect_post(
        self,
        post: Self,
        password: &str,
        out_pre: Seq<u8>,
        out_post: Seq<u8>,
        r: bool,
    ) -> bool;

    /// What `add_movie` demands.
    spec fn add_movie_req(self, movie: MovieHandle) -> bool;

    /// What `add_movie` does.
    spec fn add_movie_post(self, post: Self, movie: MovieHandle) -> bool;

    /// What `on_position` returns.
    spec fn on_position_post(self, post: Self, pc: u32, r: bool) -> bool;

    /// What `on_script_loaded` demands of the snapshot.
    spec fn on_script_loaded_req(self, call_stack: CallStack) -> bool;

    /// What `on_script_loaded` does.
    spec fn on_script_loaded_post(
        self,
        post: Self,
        call_stack: CallStack,
        out_pre: Seq<u8>,
        out_post: Seq<u8>,
    ) -> bool;

    /// Advance I/O one step with what the host read; reply bytes are
    /// appended to `out`.
    fn tick(&mut self, input: Option<Vec<u8>>, out: &mut Vec<u8>) -> (r: Option<bool>)
        requires
            old(self).backend_wf(),
            old(self).tick_req(input),
        ensures
            final(self).backend_wf(),
            old(self).tick_post(*final(self), input, old(out)@, final(out)@, r),
    ;

    /// Note an established connection and emit the greeting.
    fn connect(&mut self, password: &str, out: &mut Vec<u8>) -> (r: bool)
        requires
            old(self).backend_wf(),
            old(self).connect_req(password),
        ensures
            final(self).backend_wf(),
            old(self).connect_post(*final(self), password, old(out)@, final(out)@, r),
    ;

    /// Register a loaded movie.
    fn add_movie(&mut self, movie: MovieHandle)
        requires
            old(self).backend_wf(),
            old(self).add_movie_req(movie),
        ensures
            final(self).backend_wf(),
            old(self).add_movie_post(*final(self), movie),
    ;

    /// Whether a breakpoint is registered at `pc`.
    fn on_position(&mut self, pc: u32) -> (r: bool)
        requires
            old(self).backend_wf(),
        ensures
            final(self).backend_wf(),
            old(self).on_position_post(*final(self), pc, r),
    ;

    /// Announce a loaded script with a call-stack snapshot.
    fn on_script_loaded(&mut self, call_stack: &CallStack, out: &mut Vec<u8>)
        requires
            old(self).backend_wf(),
            old(self).on_script_loaded_req(*call_stack),
        ensures
            final(self).backend_wf(),
            old(self).on_script_loaded_post(*final(self), *call_stack, old(out)@, final(out)@),
    ;
}

/// A backend that does nothing: it never connects, never reads, never
/// writes, and reports no breakpoints.
pub struct NullDebuggerBackend;

impl DebuggerBackend for NullDebuggerBackend {
    open spec fn backend_wf(self) -> bool {
        true
    }

    open spec fn tick_req(self, input: Option<Vec<u8>>) -> bool {
        true
    }

    open spec fn tick_post(
        self,
        post: Self,
        input: Option<Vec<u8>>,
        out_pre: Seq<u8>,
        out_post: Seq<u8>,
        r: Option<bool>,
    ) -> bool {
        out_post == out_pre && r is None
    }

    open spec fn connect_req(self, password: &str) -> bool {
        true
    }

    open spec fn connect_post(
        self,
        post: Self,
        password: &str,
        out_pre: Seq<u8>,
        out_post: Seq<u8>,
        r: bool,
    ) -> bool {
        out_post == out_pre && r == false
    }

    open spec fn add_movie_req(self, movie: MovieHandle) -> bool {
        true
    }

    open spec fn add_movie_post(self, post: Self, movie: MovieHandle) -> bool {
        true
    }

    open spec fn on_position_post(self, post: Self, pc: u32, r: bool) -> bool {
        r == false
    }

    open spec fn on_script_loaded_req(self, call_stack: CallStack) -> bool {
        true
    }

    open spec fn on_script_loaded_post(
        self,
        post: Self,
        call_stack: CallStack,
        out_pre: Seq<u8>,
        out_post: Seq<u8>,
    ) -> bool {
        out_post == out_pre
    }

    fn tick(&mut self, input: Option<Vec<u8>>, out: &mut Vec<u8>) -> (r: Option<bool>) {
        None
    }

    fn connect(&mut self, password: &str, out: &mut Vec<u8>) -> (r: bool) {
        false
    }

    fn add_movie(&mut self, movie: MovieHandle) {
    }

    fn on_position(&mut self, pc: u32) -> (r: bool) {
        false
    }

    fn on_script_loaded(&mut self, call_stack: &CallStack, out: &mut Vec<u8>) {
    }
}

impl DebuggerBackend for RemoteDebuggerBackend {
    open spec fn backend_wf(self) -> bool {
        self.wf()
    }

    open spec fn tick_req(self, input: Option<Vec<u8>>) -> bool {
        input matches Some(buf) ==> buf@.len() == self.spec_expected_read_len()
    }

    open spec fn tick_post(
        self,
        post: Self,
        input: Option<Vec<u8>>,
        out_pre: Seq<u8>,
        out_post: Seq<u8>,
        r: Option<bool>,
    ) -> bool {
        tick_transition(self, post, input, out_pre, out_post, r)
    }

    open spec fn connect_req(self, password: &str) -> bool {
        password.spec_bytes().len() <= 0xFFFF
    }

    open spec fn connect_post(
        self,
        post: Self,
        password: &str,
        out_pre: Seq<u8>,
        out_post: Seq<u8>,
        r: bool,
    ) -> bool {
        connect_transition(self, post, password.spec_bytes(), out_pre, out_post, r)
    }

    open spec fn add_movie_req(self, movie: MovieHandle) -> bool {
        self.movies@.len() < 0xFFFF
    }

    open spec fn add_movie_post(self, post: Self, movie: MovieHandle) -> bool {
        &&& post == (RemoteDebuggerBackend { movies: post.movies, ..self })
        &&& post.movies@ == self.movies@.push(movie)
    }

    open spec fn on_position_post(self, post: Self, pc: u32, r: bool) -> bool {
        &&& post == self
        &&& r == (self.swd matches Some(sym) && find_breakpoint(sym.breakpoints@, pc) is Some)
    }

    open spec fn on_script_loaded_req(self, call_stack: CallStack) -> bool {
        crate::debugger::stack_fits(call_stack)
    }

    open spec fn on_script_loaded_post(
        self,
        post: Self,
        call_stack: CallStack,
        out_pre: Seq<u8>,
        out_post: Seq<u8>,
    ) -> bool {
        &&& post == self
        &&& out_post == out_pre + (if self.connected {
            crate::debugger::suspend_frame(
                crate::message::SuspendReason::ScriptLoaded,
                call_stack,
            )
        } else {
            Seq::<u8>::empty()
        })
    }

    fn tick(&mut self, input: Option<Vec<u8>>, out: &mut Vec<u8>) -> (r: Option<bool>) {
        self.tick(input, out)
    }

    fn connect(&mut self, password: &str, out: &mut Vec<u8>) -> (r: bool) {
        self.connect(password, out)
    }

    fn add_movie(&mut self, movie: MovieHandle) {
        self.add_movie(movie)
    }

    fn on_position(&mut self, pc: u32) -> (r: bool) {
        self.on_position(pc)
    }

    fn on_script_loaded(&mut self, call_stack: &CallStack, out: &mut Vec<u8>) {
        self.on_script_loaded(call_stack, out)
    }
}

} // verus!
