//! Client-side session engine for an interactive remote shell.
//!
//! The crate holds the part of an SSH client that decides: the session
//! state machine, the host-key trust rules, the classification of what the
//! transport reports, and the fan-out of session events to subscribers.
//! It performs no network I/O of its own. A front end asks the session
//! whether an operation is allowed, carries the request to its transport,
//! and hands the transport's answer back.

pub mod channel;
pub mod error;
pub mod event;
pub mod handoff;
pub mod hostkey;
pub mod inbound;
pub mod laws;
pub mod model;
pub mod session;
pub mod state;
pub mod stream;

pub use channel::{Pty, PtyRequest, WindowChange};
pub use error::{ErrorView, SshError, SshErrorCode, TransportStep};
pub use event::{EventView, HostKeyPromptEvent, HostKeyReason, PromptView, SshEvent};
pub use handoff::FingerprintHandoff;
pub use hostkey::{HostKeyDecision, HostKeyPolicy, HostKeyVerdict, KnownHostEntry};
pub use inbound::InboundEvents;
pub use model::{ConnectReport, SessionView};
pub use session::{ConnectOutcome, SshSession};
pub use state::SshState;
pub use stream::{EventStream, StreamError};
