//! The six lifecycle states of a session and the table of legal moves.

use vstd::prelude::*;

verus! {

/// Where a session is in its life. `Init` is where it starts and `Closed`
/// is where it ends.
#[derive(Debug, Clone, Copy, PartialEq, Eq, Structural)]
pub enum SshState {
    Init,
    Connecting,
    HostKeyPrompt,
    Ready,
    Closing,
    Closed,
}

/// The forward edges of the lifecycle, without the self-loops and without
/// the two teardown rules.
pub open spec fn forward_edge(from: SshState, to: SshState) -> bool {
    ||| from == SshState::Init && to == SshState::Connecting
    ||| from == SshState::Connecting && to == SshState::HostKeyPrompt
    ||| from == SshState::Connecting && to == SshState::Ready
    ||| from == SshState::HostKeyPrompt && to == SshState::Ready
    ||| from == SshState::Ready && to == SshState::Closing
    ||| from == SshState::Closing && to == SshState::Closed
}

/// The transition table. Staying put is always legal. `Closed` has no way
/// out. From every other state teardown (`Closing`, `Closed`) is legal, and
/// so are the forward edges.
pub open spec fn legal_edge(from: SshState, to: SshState) -> bool {
    ||| from == to
    ||| from != SshState::Closed && (to == SshState::Closing || to == SshState::Closed
        || forward_edge(from, to))
}

impl SshState {
    /// Whether host-key verification may run in this state.
    pub open spec fn verifying(self) -> bool {
        self == SshState::Connecting || self == SshState::HostKeyPrompt
    }
}

} // verus!
