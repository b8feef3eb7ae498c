//! The host-key trust rules: from a policy, the fingerprint the server
//! showed and the fingerprint that is already trusted, to a verdict.

use vstd::prelude::*;
use vstd::string::*;

use crate::error::{ErrorView, SshError, SshErrorCode};
use crate::event::HostKeyReason;

verus! {

/// How much a session trusts a host key on its own.
#[derive(Clone, Copy, Debug, PartialEq, Eq, Structural)]
pub enum HostKeyPolicy {
    /// Trust only what is already known.
    Strict,
    /// Trust a host that was never seen; never a key that changed.
    AcceptNew,
    /// Leave the decision to the caller.
    Ask,
}

/// The fingerprint that the caller's storage trusts for this host.
#[derive(Clone, Debug, PartialEq, Eq)]
pub struct KnownHostEntry {
    pub fingerprint: String,
}

impl View for KnownHostEntry {
    type V = Seq<char>;

    open spec fn view(&self) -> Seq<char> {
        self.fingerprint@
    }
}

/// What a successful verification reports.
#[derive(Clone, Copy, Debug, PartialEq, Eq, Structural)]
pub enum HostKeyDecision {
    Accepted,
    Rejected,
    Unchanged,
}

/// What the trust rules say of one server key.
#[derive(Clone, Copy, Debug, PartialEq, Eq, Structural)]
pub enum HostKeyVerdict {
    /// The key is the one that is already trusted.
    Match,
    /// The host was never seen and the policy trusts it now.
    TrustNew,
    /// The caller has to decide.
    Prompt(HostKeyReason),
    /// The policy refuses the key.
    Reject(HostKeyReason),
}

/// The trusted fingerprint of an optional entry.
pub open spec fn known_fingerprint(known: Option<KnownHostEntry>) -> Option<Seq<char>> {
    match known {
        Some(entry) => Some(entry@),
        None => None,
    }
}

/// Why a key that is not the trusted one needs a decision.
pub open spec fn reason_of(known: Option<Seq<char>>) -> HostKeyReason {
    if known is None {
        HostKeyReason::New
    } else {
        HostKeyReason::Changed
    }
}

/// The trust rules. A key equal to the trusted one always matches. Any
/// other key is new where nothing is trusted yet and changed otherwise;
/// `Strict` refuses both, `AcceptNew` trusts a new key and refuses a changed
/// one, and `Ask` prompts for both.
pub open spec fn verdict_of(
    policy: HostKeyPolicy,
    server: Seq<char>,
    known: Option<Seq<char>>,
) -> HostKeyVerdict {
    if known == Some(server) {
        HostKeyVerdict::Match
    } else {
        match policy {
            HostKeyPolicy::Strict => HostKeyVerdict::Reject(reason_of(known)),
            HostKeyPolicy::AcceptNew => if known is None {
                HostKeyVerdict::TrustNew
            } else {
                HostKeyVerdict::Reject(HostKeyReason::Changed)
            },
            HostKeyPolicy::Ask => HostKeyVerdict::Prompt(reason_of(known)),
        }
    }
}

/// Whether the rules can refuse under `policy` for `reason`.
pub open spec fn can_reject(policy: HostKeyPolicy, reason: HostKeyReason) -> bool {
    ||| policy == HostKeyPolicy::Strict
    ||| policy == HostKeyPolicy::AcceptNew && reason == HostKeyReason::Changed
}

/// The error a refusal is reported with. It is never retryable.
pub open spec fn rejection_view(policy: HostKeyPolicy, reason: HostKeyReason) -> ErrorView {
    match reason {
        HostKeyReason::New => ErrorView {
            code: SshErrorCode::HostkeyUnknown,
            message: "Host key unknown (policy=strict)"@,
            retryable: false,
        },
        HostKeyReason::Changed => ErrorView {
            code: SshErrorCode::HostkeyChanged,
            message: if policy == HostKeyPolicy::Strict {
                "Host key changed (policy=strict)"@
            } else {
                "Host key changed (policy=accept-new)"@
            },
            retryable: false,
        },
    }
}

/// Applies the trust rules to one server key.
pub fn assess_host_key(
    policy: HostKeyPolicy,
    server_fingerprint: &String,
    known: &Option<KnownHostEntry>,
) -> (verdict: HostKeyVerdict)
    ensures
        verdict == verdict_of(policy, server_fingerprint@, known_fingerprint(*known)),
{
    let reason = match known {
        None => HostKeyReason::New,
        Some(entry) => {
            if entry.fingerprint == *server_fingerprint {
                return HostKeyVerdict::Match;
            }
            HostKeyReason::Changed
        },
    };
    match policy {
        HostKeyPolicy::Strict => HostKeyVerdict::Reject(reason),
        HostKeyPolicy::AcceptNew => match reason {
            HostKeyReason::New => HostKeyVerdict::TrustNew,
            HostKeyReason::Changed => HostKeyVerdict::Reject(reason),
        },
        HostKeyPolicy::Ask => HostKeyVerdict::Prompt(reason),
    }
}

/// The error for a key that `policy` refuses for `reason`.
pub(crate) fn rejection(policy: HostKeyPolicy, reason: HostKeyReason) -> (e: SshError)
    requires
        can_reject(policy, reason),
    ensures
        e@ == rejection_view(policy, reason),
{
    match reason {
        HostKeyReason::New => SshError::new(
            SshErrorCode::HostkeyUnknown,
            "Host key unknown (policy=strict)".to_owned(),
            false,
        ),
        HostKeyReason::Changed => match policy {
            HostKeyPolicy::Strict => SshError::new(
                SshErrorCode::HostkeyChanged,
                "Host key changed (policy=strict)".to_owned(),
                false,
            ),
            _ => SshError::new(
                SshErrorCode::HostkeyChanged,
                "Host key changed (policy=accept-new)".to_owned(),
                false,
            ),
        },
    }
}

} // verus!
