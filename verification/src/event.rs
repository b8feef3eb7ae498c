//! The events a session publishes, and how transport notifications become
//! events.

use vstd::prelude::*;
use vstd::slice::slice_to_vec;

use crate::error::SshErrorCode;
use crate::state::SshState;

verus! {

/// Why a host key needs a decision: the host was never seen, or it was seen
/// with another key.
#[derive(Clone, Copy, Debug, PartialEq, Eq, Structural)]
pub enum HostKeyReason {
    New,
    Changed,
}

/// What a `HostKeyPromptEvent` is, as a mathematical value.
pub struct PromptView {
    pub fingerprint: Seq<char>,
    pub reason: HostKeyReason,
}

/// A host key that waits for a decision.
#[derive(Debug)]
pub struct HostKeyPromptEvent {
    pub fingerprint: String,
    pub reason: HostKeyReason,
}

impl View for HostKeyPromptEvent {
    type V = PromptView;

    open spec fn view(&self) -> PromptView {
        PromptView { fingerprint: self.fingerprint@, reason: self.reason }
    }
}

/// What an `SshEvent` is, as a mathematical value.
pub enum EventView {
    Status { state: SshState },
    Stdout { data: Seq<u8> },
    Stderr { data: Seq<u8> },
    HostKeyPrompt { fingerprint: Seq<char>, reason: HostKeyReason },
    Exit { exit_code: int, signal: Option<Seq<char>> },
    Error { code: SshErrorCode, message: Seq<char>, retryable: bool },
}

/// One thing that happened to a session. Events are values: once made they
/// are only read.
#[derive(Clone, Debug, PartialEq, Eq)]
pub enum SshEvent {
    Status { state: SshState },
    Stdout { data: Vec<u8> },
    Stderr { data: Vec<u8> },
    HostKeyPrompt { fingerprint: String, reason: HostKeyReason },
    Exit { exit_code: i32, signal: Option<String> },
    Error { code: SshErrorCode, message: String, retryable: bool },
}

impl View for SshEvent {
    type V = EventView;

    open spec fn view(&self) -> EventView {
        match self {
            SshEvent::Status { state } => EventView::Status { state: *state },
            SshEvent::Stdout { data } => EventView::Stdout { data: data@ },
            SshEvent::Stderr { data } => EventView::Stderr { data: data@ },
            SshEvent::HostKeyPrompt { fingerprint, reason } => EventView::HostKeyPrompt {
                fingerprint: fingerprint@,
                reason: *reason,
            },
            SshEvent::Exit { exit_code, signal } => EventView::Exit {
                exit_code: *exit_code as int,
                signal: match signal {
                    Some(name) => Some(name@),
                    None => None,
                },
            },
            SshEvent::Error { code, message, retryable } => EventView::Error {
                code: *code,
                message: message@,
                retryable: *retryable,
            },
        }
    }
}

/// The stream number that marks extended channel data as the error stream.
pub const STDERR_STREAM: u32 = 1;

/// The exit code reported for a process that a signal ended.
pub const SIGNAL_EXIT_CODE: i32 = 128;

/// An exit status as the 32-bit signed number with the same bits.
pub open spec fn exit_code_of(exit_status: u32) -> int {
    if exit_status < 0x8000_0000 {
        exit_status as int
    } else {
        exit_status - 0x1_0000_0000
    }
}

impl SshEvent {
    /// Ordinary channel data is standard output.
    pub fn from_data(data: &[u8]) -> (e: SshEvent)
        ensures
            e@ == (EventView::Stdout { data: data@ }),
    {
        SshEvent::Stdout { data: slice_to_vec(data) }
    }

    /// Extended channel data is standard error on the error stream, and
    /// standard output on any other.
    pub fn from_extended_data(ext: u32, data: &[u8]) -> (e: SshEvent)
        ensures
            ext == STDERR_STREAM ==> e@ == (EventView::Stderr { data: data@ }),
            ext != STDERR_STREAM ==> e@ == (EventView::Stdout { data: data@ }),
    {
        if ext == STDERR_STREAM {
            SshEvent::Stderr { data: slice_to_vec(data) }
        } else {
            SshEvent::Stdout { data: slice_to_vec(data) }
        }
    }

    /// A numeric exit status becomes an exit without a signal.
    pub fn from_exit_status(exit_status: u32) -> (e: SshEvent)
        ensures
            e@ == (EventView::Exit { exit_code: exit_code_of(exit_status), signal: None }),
    {
        let exit_code: i32 = exit_status as i32;
        assert(exit_code as int == exit_code_of(exit_status)) by {
            assert(exit_status < 0x8000_0000u32 ==> exit_status as i32 == exit_status)
                by (bit_vector);
            assert(exit_status >= 0x8000_0000u32 ==> exit_status as i32 == exit_status
                - 0x1_0000_0000) by (bit_vector);
        }
        SshEvent::Exit { exit_code, signal: None }
    }

    /// An exit on a signal becomes the fixed code 128 with the signal's name.
    pub fn from_exit_signal(signal_name: String) -> (e: SshEvent)
        ensures
            e@ == (EventView::Exit {
                exit_code: SIGNAL_EXIT_CODE as int,
                signal: Some(signal_name@),
            }),
    {
        SshEvent::Exit { exit_code: SIGNAL_EXIT_CODE, signal: Some(signal_name) }
    }
}

} // verus!
