//! The single-use handoff of the server's fingerprint.
//!
//! The transport learns the server's identity on its own path, while the
//! connection attempt waits under a deadline. A `tokio` oneshot channel
//! carries the fingerprint across: the transport's side delivers at most
//! once, and the waiting side is a future that resolves to the fingerprint
//! or to the fact that the other side went away.

use vstd::prelude::*;

verus! {

/// `tokio::sync::oneshot::Sender`, the end that gives the one value. The
/// library carries it and sees nothing inside.
#[verifier::external_type_specification]
#[verifier::external_body]
#[verifier::reject_recursive_types(T)]
pub struct ExOneshotSender<T>(tokio::sync::oneshot::Sender<T>);

/// `tokio::sync::oneshot::Receiver`, the end that waits for the value. The
/// library hands it to the caller and sees nothing inside.
#[verifier::external_type_specification]
#[verifier::external_body]
#[verifier::reject_recursive_types(T)]
pub struct ExOneshotReceiver<T>(tokio::sync::oneshot::Receiver<T>);

/// `tokio::sync::oneshot::error::RecvError`, what the waiting end resolves
/// to where the giving end went away. It is declared because the waiting
/// end names it; the library never holds one.
#[verifier::external_type_specification]
#[verifier::external_body]
pub struct ExOneshotRecvError(tokio::sync::oneshot::error::RecvError);

/// `tokio::sync::oneshot::channel`: the two ends of a new channel that
/// carries one value. Nothing is claimed of the result.
#[verifier::external_body]
fn oneshot_channel<T>() -> (ends: (
    tokio::sync::oneshot::Sender<T>,
    tokio::sync::oneshot::Receiver<T>,
)) {
    tokio::sync::oneshot::channel()
}

/// `tokio::sync::oneshot::Sender::send`: gives the value to the channel and
/// uses the sender up. Where the receiver is gone the value is dropped;
/// either way the call returns, and its result is not looked at.
#[verifier::external_body]
fn oneshot_send<T>(tx: tokio::sync::oneshot::Sender<T>, value: T) {
    let _ = tx.send(value);
}

/// The delivering end of the handoff. It is armed until the first delivery
/// and spent from then on.
pub struct FingerprintHandoff {
    tx: Option<tokio::sync::oneshot::Sender<String>>,
}

impl FingerprintHandoff {
    /// Whether nothing was delivered yet.
    pub closed spec fn armed(&self) -> bool {
        self.tx is Some
    }

    /// An armed handoff, and the end to wait on.
    pub fn new() -> (ends: (FingerprintHandoff, tokio::sync::oneshot::Receiver<String>))
        ensures
            ends.0.armed(),
    {
        let (tx, rx) = oneshot_channel();
        (FingerprintHandoff { tx: Some(tx) }, rx)
    }

    /// Delivers the fingerprint if none was delivered before, and says
    /// whether it did. A second delivery is a harmless no-op.
    pub fn deliver(&mut self, fingerprint: String) -> (handed_over: bool)
        ensures
            handed_over == old(self).armed(),
            !final(self).armed(),
    {
        match self.tx.take() {
            Some(tx) => {
                oneshot_send(tx, fingerprint);
                true
            },
            None => false,
        }
    }
}

} // verus!
