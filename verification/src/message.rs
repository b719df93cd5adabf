//! The two closed message-kind enumerations of the wire protocol, and the
//! suspend-reason codes. Each kind has a fixed numeric code; the codes are
//! given by spec functions and matching executable conversions.

use vstd::prelude::*;

verus! {

/// A kind of message sent by the debugger client.
#[derive(Clone, Copy, Debug, PartialEq, Eq, Structural)]
pub enum ClientMessageKind {
    ZoomIn,
    ZoomOut,
    ZoomComplete,
    Home,
    SetQuality,
    Play,
    Loop,
    Rewind,
    Forward,
    Back,
    Print,
    SetField,
    SetProperty,
    TerminateSession,
    RequestProps,
    Continue,
    Suspend,
    SetBreak,
    ClearBreak,
    ClearAllBreak,
    StepOver,
    StepInto,
    StepOut,
    ProcessedTag,
    SetSquelch,
    GetField,
    GetFuncName,
    GetDebugOption,
    SetDebugOption,
    AddWatch,
    RemoveWatch,
    StepContinue,
    GetContent,
    GetDebugContent,
    GetFieldGetterInvoker,
    GetSuspendReason,
    GetActions,
    SetActions,
    GetInfo,
    GetConstantPool,
    GetFuncInfo,
    AddWatch2,
    RemoveWatch2,
}

/// The numeric code of a client message kind.
pub open spec fn client_kind_code(k: ClientMessageKind) -> u32 {
    match k {
        ClientMessageKind::ZoomIn => 0x00,
        ClientMessageKind::ZoomOut => 0x01,
        ClientMessageKind::ZoomComplete => 0x02,
        ClientMessageKind::Home => 0x03,
        ClientMessageKind::SetQuality => 0x04,
        ClientMessageKind::Play => 0x05,
        ClientMessageKind::Loop => 0x06,
        ClientMessageKind::Rewind => 0x07,
        ClientMessageKind::Forward => 0x08,
        ClientMessageKind::Back => 0x09,
        ClientMessageKind::Print => 0x0A,
        ClientMessageKind::SetField => 0x0B,
        ClientMessageKind::SetProperty => 0x0C,
        ClientMessageKind::TerminateSession => 0x0D,
        ClientMessageKind::RequestProps => 0x0E,
        ClientMessageKind::Continue => 0x0F,
        ClientMessageKind::Suspend => 0x10,
        ClientMessageKind::SetBreak => 0x11,
        ClientMessageKind::ClearBreak => 0x12,
        ClientMessageKind::ClearAllBreak => 0x13,
        ClientMessageKind::StepOver => 0x14,
        ClientMessageKind::StepInto => 0x15,
        ClientMessageKind::StepOut => 0x16,
        ClientMessageKind::ProcessedTag => 0x17,
        ClientMessageKind::SetSquelch => 0x18,
        ClientMessageKind::GetField => 0x19,
        ClientMessageKind::GetFuncName => 0x1A,
        ClientMessageKind::GetDebugOption => 0x1B,
        ClientMessageKind::SetDebugOption => 0x1C,
        ClientMessageKind::AddWatch => 0x1D,
        ClientMessageKind::RemoveWatch => 0x1E,
        ClientMessageKind::StepContinue => 0x1F,
        ClientMessageKind::GetContent => 0x20,
        ClientMessageKind::GetDebugContent => 0x21,
        ClientMessageKind::GetFieldGetterInvoker => 0x22,
        ClientMessageKind::GetSuspendReason => 0x23,
        ClientMessageKind::GetActions => 0x24,
        ClientMessageKind::SetActions => 0x25,
        ClientMessageKind::GetInfo => 0x26,
        ClientMessageKind::GetConstantPool => 0x27,
        ClientMessageKind::GetFuncInfo => 0x28,
        ClientMessageKind::AddWatch2 => 0x31,
        ClientMessageKind::RemoveWatch2 => 0x32,
    }
}

/// The client message kind with a given numeric code, if the code is known.
pub open spec fn spec_client_kind_from_u32(v: u32) -> Option<ClientMessageKind> {
    if v == 0x00 {
        Some(ClientMessageKind::ZoomIn)
    } else if v == 0x01 {
        Some(ClientMessageKind::ZoomOut)
    } else if v == 0x02 {
        Some(ClientMessageKind::ZoomComplete)
    } else if v == 0x03 {
        Some(ClientMessageKind::Home)
    } else if v == 0x04 {
        Some(ClientMessageKind::SetQuality)
    } else if v == 0x05 {
        Some(ClientMessageKind::Play)
    } else if v == 0x06 {
        Some(ClientMessageKind::Loop)
    } else if v == 0x07 {
        Some(ClientMessageKind::Rewind)
    } else if v == 0x08 {
        Some(ClientMessageKind::Forward)
    } else if v == 0x09 {
        Some(ClientMessageKind::Back)
    } else if v == 0x0A {
        Some(ClientMessageKind::Print)
    } else if v == 0x0B {
        Some(ClientMessageKind::SetField)
    } else if v == 0x0C {
        Some(ClientMessageKind::SetProperty)
    } else if v == 0x0D {
        Some(ClientMessageKind::TerminateSession)
    } else if v == 0x0E {
        Some(ClientMessageKind::RequestProps)
    } else if v == 0x0F {
        Some(ClientMessageKind::Continue)
    } else if v == 0x10 {
        Some(ClientMessageKind::Suspend)
    } else if v == 0x11 {
        Some(ClientMessageKind::SetBreak)
    } else if v == 0x12 {
        Some(ClientMessageKind::ClearBreak)
    } else if v == 0x13 {
        Some(ClientMessageKind::ClearAllBreak)
    } else if v == 0x14 {
        Some(ClientMessageKind::StepOver)
    } else if v == 0x15 {
        Some(ClientMessageKind::StepInto)
    } else if v == 0x16 {
        Some(ClientMessageKind::StepOut)
    } else if v == 0x17 {
        Some(ClientMessageKind::ProcessedTag)
    } else if v == 0x18 {
        Some(ClientMessageKind::SetSquelch)
    } else if v == 0x19 {
        Some(ClientMessageKind::GetField)
    } else if v == 0x1A {
        Some(ClientMessageKind::GetFuncName)
    } else if v == 0x1B {
        Some(ClientMessageKind::GetDebugOption)
    } else if v == 0x1C {
        Some(ClientMessageKind::SetDebugOption)
    } else if v == 0x1D {
        Some(ClientMessageKind::AddWatch)
    } else if v == 0x1E {
        Some(ClientMessageKind::RemoveWatch)
    } else if v == 0x1F {
        Some(ClientMessageKind::StepContinue)
    } else if v == 0x20 {
        Some(ClientMessageKind::GetContent)
    } else if v == 0x21 {
        Some(ClientMessageKind::GetDebugContent)
    } else if v == 0x22 {
        Some(ClientMessageKind::GetFieldGetterInvoker)
    } else if v == 0x23 {
        Some(ClientMessageKind::GetSuspendReason)
    } else if v == 0x24 {
        Some(ClientMessageKind::GetActions)
    } else if v == 0x25 {
        Some(ClientMessageKind::SetActions)
    } else if v == 0x26 {
        Some(ClientMessageKind::GetInfo)
    } else if v == 0x27 {
        Some(ClientMessageKind::GetConstantPool)
    } else if v == 0x28 {
        Some(ClientMessageKind::GetFuncInfo)
    } else if v == 0x31 {
        Some(ClientMessageKind::AddWatch2)
    } else if v == 0x32 {
        Some(ClientMessageKind::RemoveWatch2)
    } else {
        None
    }
}

impl ClientMessageKind {
    /// Decode a numeric code received on the wire.
    pub fn from_u32(v: u32) -> (r: Option<ClientMessageKind>)
        ensures
            r == spec_client_kind_from_u32(v),
    {
        if v == 0x00 {
            Some(ClientMessageKind::ZoomIn)
        } else if v == 0x01 {
            Some(ClientMessageKind::ZoomOut)
        } else if v == 0x02 {
            Some(ClientMessageKind::ZoomComplete)
        } else if v == 0x03 {
            Some(ClientMessageKind::Home)
        } else if v == 0x04 {
            Some(ClientMessageKind::SetQuality)
        } else if v == 0x05 {
            Some(ClientMessageKind::Play)
        } else if v == 0x06 {
            Some(ClientMessageKind::Loop)
        } else if v == 0x07 {
            Some(ClientMessageKind::Rewind)
        } else if v == 0x08 {
            Some(ClientMessageKind::Forward)
        } else if v == 0x09 {
            Some(ClientMessageKind::Back)
        } else if v == 0x0A {
            Some(ClientMessageKind::Print)
        } else if v == 0x0B {
            Some(ClientMessageKind::SetField)
        } else if v == 0x0C {
            Some(ClientMessageKind::SetProperty)
        } else if v == 0x0D {
            Some(ClientMessageKind::TerminateSession)
        } else if v == 0x0E {
            Some(ClientMessageKind::RequestProps)
        } else if v == 0x0F {
            Some(ClientMessageKind::Continue)
        } else if v == 0x10 {
            Some(ClientMessageKind::Suspend)
        } else if v == 0x11 {
            Some(ClientMessageKind::SetBreak)
        } else if v == 0x12 {
            Some(ClientMessageKind::ClearBreak)
        } else if v == 0x13 {
            Some(ClientMessageKind::ClearAllBreak)
        } else if v == 0x14 {
            Some(ClientMessageKind::StepOver)
        } else if v == 0x15 {
            Some(ClientMessageKind::StepInto)
        } else if v == 0x16 {
            Some(ClientMessageKind::StepOut)
        } else if v == 0x17 {
            Some(ClientMessageKind::ProcessedTag)
        } else if v == 0x18 {
            Some(ClientMessageKind::SetSquelch)
        } else if v == 0x19 {
            Some(ClientMessageKind::GetField)
        } else if v == 0x1A {
            Some(ClientMessageKind::GetFuncName)
        } else if v == 0x1B {
            Some(ClientMessageKind::GetDebugOption)
        } else if v == 0x1C {
            Some(ClientMessageKind::SetDebugOption)
        } else if v == 0x1D {
            Some(ClientMessageKind::AddWatch)
        } else if v == 0x1E {
            Some(ClientMessageKind::RemoveWatch)
        } else if v == 0x1F {
            Some(ClientMessageKind::StepContinue)
        } else if v == 0x20 {
            Some(ClientMessageKind::GetContent)
        } else if v == 0x21 {
            Some(ClientMessageKind::GetDebugContent)
        } else if v == 0x22 {
            Some(ClientMessageKind::GetFieldGetterInvoker)
        } else if v == 0x23 {
            Some(ClientMessageKind::GetSuspendReason)
        } else if v == 0x24 {
            Some(ClientMessageKind::GetActions)
        } else if v == 0x25 {
            Some(ClientMessageKind::SetActions)
        } else if v == 0x26 {
            Some(ClientMessageKind::GetInfo)
        } else if v == 0x27 {
            Some(ClientMessageKind::GetConstantPool)
        } else if v == 0x28 {
            Some(ClientMessageKind::GetFuncInfo)
        } else if v == 0x31 {
            Some(ClientMessageKind::AddWatch2)
        } else if v == 0x32 {
            Some(ClientMessageKind::RemoveWatch2)
        } else {
            None
        }
    }
}

/// A kind of message sent by the adapter to the debugger client.
#[derive(Clone, Copy, Debug, PartialEq, Eq, Structural)]
pub enum ServerMessageKind {
    SetVersion,
    Continue,
    Squelch,
    DebuggerOption,
    MovieAttribute,
    NumSwdEntries,
    SwfInfo,
    SwfImage,
    SwdImage,
    SuspendReason,
}

/// The numeric code of a server message kind.
pub open spec fn server_kind_code(k: ServerMessageKind) -> u32 {
    match k {
        ServerMessageKind::SetVersion => 0x1A,
        ServerMessageKind::Continue => 0x11,
        ServerMessageKind::Squelch => 0x1D,
        ServerMessageKind::DebuggerOption => 0x20,
        ServerMessageKind::MovieAttribute => 0x0C,
        ServerMessageKind::NumSwdEntries => 0x14,
        ServerMessageKind::SwfInfo => 0x2A,
        ServerMessageKind::SwfImage => 0x22,
        ServerMessageKind::SwdImage => 0x23,
        ServerMessageKind::SuspendReason => 0x28,
    }
}

impl ServerMessageKind {
    /// Encode this kind as its numeric wire code.
    pub fn to_u32(self) -> (r: u32)
        ensures
            r == server_kind_code(self),
    {
        match self {
            ServerMessageKind::SetVersion => 0x1A,
            ServerMessageKind::Continue => 0x11,
            ServerMessageKind::Squelch => 0x1D,
            ServerMessageKind::DebuggerOption => 0x20,
            ServerMessageKind::MovieAttribute => 0x0C,
            ServerMessageKind::NumSwdEntries => 0x14,
            ServerMessageKind::SwfInfo => 0x2A,
            ServerMessageKind::SwfImage => 0x22,
            ServerMessageKind::SwdImage => 0x23,
            ServerMessageKind::SuspendReason => 0x28,
        }
    }
}

/// Why execution stopped, as reported in a `SuspendReason` message.
#[derive(Clone, Copy, Debug, PartialEq, Eq, Structural)]
pub enum SuspendReason {
    Unknown,
    Breakpoint,
    Watch,
    Fault,
    StopRequest,
    Step,
    Halt,
    ScriptLoaded,
}

/// The numeric code of a suspend reason.
pub open spec fn suspend_reason_code(r: SuspendReason) -> u16 {
    match r {
        SuspendReason::Unknown => 0,
        SuspendReason::Breakpoint => 1,
        SuspendReason::Watch => 2,
        SuspendReason::Fault => 3,
        SuspendReason::StopRequest => 4,
        SuspendReason::Step => 5,
        SuspendReason::Halt => 6,
        SuspendReason::ScriptLoaded => 7,
    }
}

impl SuspendReason {
    /// Encode this reason as its numeric wire code.
    pub fn to_u16(self) -> (r: u16)
        ensures
            r == suspend_reason_code(self),
    {
        match self {
            SuspendReason::Unknown => 0,
            SuspendReason::Breakpoint => 1,
            SuspendReason::Watch => 2,
            SuspendReason::Fault => 3,
            SuspendReason::StopRequest => 4,
            SuspendReason::Step => 5,
            SuspendReason::Halt => 6,
            SuspendReason::ScriptLoaded => 7,
        }
    }
}

/// The codes of the client message kinds are pairwise distinct, so a wire
/// code names at most one kind: decoding a code yields exactly the kinds
/// whose code it is.
pub proof fn lemma_client_code_round_trip(k: ClientMessageKind)
    ensures
        spec_client_kind_from_u32(client_kind_code(k)) == Some(k),
{
}

} // verus!
