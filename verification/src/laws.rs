//! What holds of every session, proved of the model that the session's
//! contracts are stated over.

use vstd::prelude::*;

use crate::error::{ErrorView, SshError, SshErrorCode, TransportStep};
use crate::event::{EventView, HostKeyReason, PromptView};
use crate::hostkey::{
    can_reject, reason_of, rejection_view, verdict_of, HostKeyDecision, HostKeyPolicy,
    HostKeyVerdict,
};
use crate::model::{connect_timeout_view, ConnectReport, SessionView};
use crate::state::{legal_edge, SshState};

verus! {

/// A move to the state a session is in is legal, changes nothing and
/// publishes nothing.
pub proof fn lemma_self_transition_is_silent(s: SessionView)
    requires
        s.state != SshState::Closed,
    ensures
        legal_edge(s.state, s.state),
        s.after_transition(s.state) == s,
        s.after_transition(s.state).published == s.published,
{
}

/// A move along an edge that the table does not have changes nothing, and
/// in particular leaves the state as it was.
pub proof fn lemma_illegal_transition_changes_nothing(s: SessionView, to: SshState)
    requires
        !legal_edge(s.state, to),
    ensures
        s.after_transition(to) == s,
        s.after_transition(to).state == s.state,
{
}

/// A legal move to another state publishes exactly the new status, after
/// everything published before.
pub proof fn lemma_transition_publishes_status(s: SessionView, to: SshState)
    requires
        legal_edge(s.state, to),
        to != s.state,
    ensures
        s.after_transition(to).state == to,
        s.after_transition(to).published == s.published.push(EventView::Status { state: to }),
{
}

/// `Closed` is absorbing. The table has no edge out of it, and no operation
/// takes a closed session anywhere else.
pub proof fn lemma_closed_is_absorbing(
    s: SessionView,
    to: SshState,
    policy: HostKeyPolicy,
    known: Option<Seq<char>>,
    report: ConnectReport,
)
    requires
        s.state == SshState::Closed,
    ensures
        legal_edge(s.state, to) <==> to == SshState::Closed,
        s.after_transition(to).state == SshState::Closed,
        s.after_transition(to).published == s.published,
        s.after_verify(policy, known).state == SshState::Closed,
        s.after_accept().state == SshState::Closed,
        s.after_reject().state == SshState::Closed,
        s.after_channel_opened().state == SshState::Closed,
        s.torn_down().state == SshState::Closed,
        s.torn_down().published == s.published,
        s.connect_error(report) == Some(SshError::invalid_state_view()),
{
}

/// A new subscriber is first shown the status of the session as it stands.
pub proof fn lemma_snapshot_starts_with_status(s: SessionView)
    ensures
        s.snapshot().len() >= 1,
        s.snapshot()[0] == (EventView::Status { state: s.state }),
        s.state != SshState::HostKeyPrompt ==> s.snapshot().len() == 1,
{
}

/// A subscriber that joins while a prompt is outstanding is shown the
/// status `HostKeyPrompt` first and the prompt second, and nothing else.
pub proof fn lemma_late_subscriber_sees_prompt(s: SessionView)
    requires
        s.state == SshState::HostKeyPrompt,
        s.pending is Some,
    ensures
        s.snapshot().len() == 2,
        s.snapshot()[0] == (EventView::Status { state: SshState::HostKeyPrompt }),
        s.snapshot()[1] == (EventView::HostKeyPrompt {
            fingerprint: s.pending->0.fingerprint,
            reason: s.pending->0.reason,
        }),
        s.snapshot().skip(1).len() == 1,
        s.snapshot().skip(1)[0] == s.snapshot()[1],
        s.snapshot().skip(1).skip(1).len() == 0,
{
}

/// Under `Strict` a host that was never seen is refused as unknown, and the
/// session ends closed and holding nothing.
pub proof fn lemma_strict_refuses_unknown(s: SessionView)
    requires
        s.can_verify(),
    ensures
        s.verify_result(HostKeyPolicy::Strict, None) == Err::<HostKeyDecision, _>(
            rejection_view(HostKeyPolicy::Strict, HostKeyReason::New),
        ),
        rejection_view(HostKeyPolicy::Strict, HostKeyReason::New).code
            == SshErrorCode::HostkeyUnknown,
        !rejection_view(HostKeyPolicy::Strict, HostKeyReason::New).retryable,
        s.after_verify(HostKeyPolicy::Strict, None).state == SshState::Closed,
        s.after_verify(HostKeyPolicy::Strict, None).holds_nothing(),
{
}

/// Under `Strict` a host whose trusted fingerprint differs from the one it
/// shows is refused as changed, and the session ends closed and holding
/// nothing.
pub proof fn lemma_strict_refuses_changed(s: SessionView, known: Seq<char>)
    requires
        s.can_verify(),
        known != s.pending->0.fingerprint,
    ensures
        s.verify_result(HostKeyPolicy::Strict, Some(known)) == Err::<HostKeyDecision, _>(
            rejection_view(HostKeyPolicy::Strict, HostKeyReason::Changed),
        ),
        rejection_view(HostKeyPolicy::Strict, HostKeyReason::Changed).code
            == SshErrorCode::HostkeyChanged,
        !rejection_view(HostKeyPolicy::Strict, HostKeyReason::Changed).retryable,
        s.after_verify(HostKeyPolicy::Strict, Some(known)).state == SshState::Closed,
        s.after_verify(HostKeyPolicy::Strict, Some(known)).holds_nothing(),
{
}

/// Under `AcceptNew` a host that was never seen is accepted: the session
/// becomes ready, nothing waits any more, and no prompt is published.
pub proof fn lemma_accept_new_trusts_unknown(s: SessionView)
    requires
        s.can_verify(),
    ensures
        s.verify_result(HostKeyPolicy::AcceptNew, None) == Ok::<_, ErrorView>(
            HostKeyDecision::Accepted,
        ),
        s.after_verify(HostKeyPolicy::AcceptNew, None).state == SshState::Ready,
        s.after_verify(HostKeyPolicy::AcceptNew, None).pending is None,
        s.after_verify(HostKeyPolicy::AcceptNew, None).published == s.published.push(
            EventView::Status { state: SshState::Ready },
        ),
{
}

/// Under `AcceptNew` a changed key is refused exactly as under `Strict`,
/// but for the policy named in the message.
pub proof fn lemma_accept_new_refuses_changed(s: SessionView, known: Seq<char>)
    requires
        s.can_verify(),
        known != s.pending->0.fingerprint,
    ensures
        s.verify_result(HostKeyPolicy::AcceptNew, Some(known)) == Err::<HostKeyDecision, _>(
            rejection_view(HostKeyPolicy::AcceptNew, HostKeyReason::Changed),
        ),
        rejection_view(HostKeyPolicy::AcceptNew, HostKeyReason::Changed).code
            == SshErrorCode::HostkeyChanged,
        s.after_verify(HostKeyPolicy::AcceptNew, Some(known)) == s.after_verify(
            HostKeyPolicy::Strict,
            Some(known),
        ),
{
}

/// A trusted fingerprint equal to the one the server shows settles the
/// matter under every policy: the result is `Unchanged`, the session becomes
/// ready, and the status is all that is published, so no prompt is.
pub proof fn lemma_matching_key_is_unchanged(s: SessionView, policy: HostKeyPolicy)
    requires
        s.can_verify(),
    ensures
        s.verify_result(policy, Some(s.pending->0.fingerprint)) == Ok::<
            _,
            ErrorView,
        >(HostKeyDecision::Unchanged),
        s.after_verify(policy, Some(s.pending->0.fingerprint)).state == SshState::Ready,
        s.after_verify(policy, Some(s.pending->0.fingerprint)).pending is None,
        s.after_verify(policy, Some(s.pending->0.fingerprint)).published == s.published.push(
            EventView::Status { state: SshState::Ready },
        ),
{
}

/// Under `Ask` a key that is not the trusted one is put to the caller. The
/// call returns `Unchanged` at once. The session is then in `HostKeyPrompt`
/// with the prompt recorded, and has published the status, if the state is
/// new, and after it exactly one prompt. From there an accept makes the
/// session ready and a reject closes it.
pub proof fn lemma_ask_prompts_once(s: SessionView, known: Option<Seq<char>>)
    requires
        s.can_verify(),
        known != Some(s.pending->0.fingerprint),
    ensures
        s.verify_result(HostKeyPolicy::Ask, known) == Ok::<_, ErrorView>(
            HostKeyDecision::Unchanged,
        ),
        ({
            let after = s.after_verify(HostKeyPolicy::Ask, known);
            let prompt = PromptView {
                fingerprint: s.pending->0.fingerprint,
                reason: if known is None {
                    HostKeyReason::New
                } else {
                    HostKeyReason::Changed
                },
            };
            let shown = EventView::HostKeyPrompt {
                fingerprint: prompt.fingerprint,
                reason: prompt.reason,
            };
            &&& after.state == SshState::HostKeyPrompt
            &&& after.pending == Some(prompt)
            &&& s.state == SshState::Connecting ==> after.published == s.published.push(
                EventView::Status { state: SshState::HostKeyPrompt },
            ).push(shown)
            &&& s.state == SshState::HostKeyPrompt ==> after.published == s.published.push(shown)
            &&& after.after_accept().state == SshState::Ready
            &&& after.after_accept().pending is None
            &&& after.after_reject().state == SshState::Closed
            &&& after.after_reject().holds_nothing()
        }),
{
}

/// Every refusal is one that the policy can make, for the reason that
/// holds; only `Ask` prompts; only a host that was never seen is trusted as
/// new; and a key matches exactly where it equals the trusted one.
pub proof fn lemma_verdicts_follow_the_policy(
    policy: HostKeyPolicy,
    server: Seq<char>,
    known: Option<Seq<char>>,
)
    ensures
        verdict_of(policy, server, known) matches HostKeyVerdict::Reject(reason) ==> can_reject(
            policy,
            reason,
        ) && reason == reason_of(known),
        verdict_of(policy, server, known) matches HostKeyVerdict::Prompt(reason) ==> policy
            == HostKeyPolicy::Ask && reason == reason_of(known),
        verdict_of(policy, server, known) == HostKeyVerdict::TrustNew ==> known is None,
        verdict_of(policy, server, known) == HostKeyVerdict::Match <==> known == Some(server),
{
}

/// A key that differs from the trusted one is never trusted by a policy
/// alone: it is refused or put to the caller, as changed.
pub proof fn lemma_changed_key_is_never_trusted(
    policy: HostKeyPolicy,
    server: Seq<char>,
    known: Seq<char>,
)
    requires
        known != server,
    ensures
        verdict_of(policy, server, Some(known)) == HostKeyVerdict::Reject(HostKeyReason::Changed)
            || verdict_of(policy, server, Some(known)) == HostKeyVerdict::Prompt(
            HostKeyReason::Changed,
        ),
        policy != HostKeyPolicy::Ask ==> verdict_of(policy, server, Some(known))
            == HostKeyVerdict::Reject(HostKeyReason::Changed),
{
}

/// A refusal by the trust rules never leaves the session usable: the error
/// is not retryable, and the session is closed and holds nothing.
pub proof fn lemma_refusal_tears_down(
    s: SessionView,
    policy: HostKeyPolicy,
    known: Option<Seq<char>>,
)
    requires
        s.can_verify(),
        s.verdict(policy, known) is Reject,
    ensures
        s.verify_result(policy, known) is Err,
        !s.verify_result(policy, known)->Err_0.retryable,
        s.verify_result(policy, known)->Err_0.code == SshErrorCode::HostkeyUnknown
            || s.verify_result(policy, known)->Err_0.code == SshErrorCode::HostkeyChanged,
        s.after_verify(policy, known).state == SshState::Closed,
        s.after_verify(policy, known).holds_nothing(),
{
}

/// The retry tags. What the session refuses for its state carries the
/// default tag of its kind, so a refusal as not ready is retryable and one
/// as an invalid state is not. A refusal by the trust rules is never
/// retryable. A failure of transport work is retryable whatever its kind.
pub proof fn lemma_retry_tags(
    step: TransportStep,
    detail: Seq<char>,
    policy: HostKeyPolicy,
    reason: HostKeyReason,
)
    ensures
        SshError::not_ready_view().retryable == SshErrorCode::NotReady.transient(),
        SshError::invalid_state_view().retryable == SshErrorCode::InvalidState.transient(),
        connect_timeout_view().retryable == SshErrorCode::Timeout.transient(),
        !rejection_view(policy, reason).retryable,
        rejection_view(policy, reason).retryable == rejection_view(policy, reason).code.transient(),
        SshError::transport_failure_view(step, detail).retryable,
{
}

/// Before the session is ready a write is refused as not ready, and the
/// refusal is retryable.
pub proof fn lemma_write_needs_ready(s: SessionView)
    requires
        s.state != SshState::Ready,
    ensures
        s.write_error() == Some(SshError::not_ready_view()),
        SshError::not_ready_view().code == SshErrorCode::NotReady,
        SshError::not_ready_view().retryable,
{
}

/// A fingerprint captured by one session is recognised by the next. The
/// first session, connected to a server that shows `fingerprint`, accepts
/// it as new under `AcceptNew` and keeps it. A second session connected to
/// a server that shows the same fingerprint, and given the first session's
/// fingerprint as the trusted one, reports `Unchanged` under every policy
/// and becomes ready without a prompt.
pub proof fn lemma_captured_fingerprint_is_recognised(
    first: SessionView,
    second: SessionView,
    first_user: Seq<char>,
    second_user: Seq<char>,
    fingerprint: Seq<char>,
    policy: HostKeyPolicy,
)
    requires
        legal_edge(first.state, SshState::Connecting),
        legal_edge(second.state, SshState::Connecting),
    ensures
        ({
            let one = first.established(first_user, fingerprint);
            let one_done = one.after_verify(HostKeyPolicy::AcceptNew, None);
            let two = second.established(second_user, fingerprint);
            let two_done = two.after_verify(policy, one_done.fingerprint);
            &&& one.verify_result(HostKeyPolicy::AcceptNew, None) == Ok::<
                _,
                ErrorView,
            >(HostKeyDecision::Accepted)
            &&& one_done.state == SshState::Ready
            &&& one_done.fingerprint == Some(fingerprint)
            &&& two.verify_result(policy, one_done.fingerprint) == Ok::<
                _,
                ErrorView,
            >(HostKeyDecision::Unchanged)
            &&& two_done.state == SshState::Ready
            &&& two_done.published == two.published.push(
                EventView::Status { state: SshState::Ready },
            )
        }),
{
}

/// A successful connection leaves the session in `Connecting`, with the
/// server's fingerprint waiting for a decision as a new key.
pub proof fn lemma_connection_awaits_verification(
    s: SessionView,
    user: Seq<char>,
    fingerprint: Seq<char>,
)
    requires
        legal_edge(s.state, SshState::Connecting),
    ensures
        s.established(user, fingerprint).state == SshState::Connecting,
        s.established(user, fingerprint).can_verify(),
        s.established(user, fingerprint).transport_open,
        s.consistent() ==> s.established(user, fingerprint).consistent(),
{
}

/// The resource rules survive every operation. A bare `transition` is the
/// one that only moves the state, so it keeps the rules exactly when what
/// the session holds is allowed in the state it moves to.
pub proof fn lemma_operations_keep_resource_rules(
    s: SessionView,
    to: SshState,
    policy: HostKeyPolicy,
    known: Option<Seq<char>>,
)
    requires
        s.consistent(),
    ensures
        SessionView::fresh().consistent(),
        s.after_verify(policy, known).consistent(),
        s.after_accept().consistent(),
        s.after_reject().consistent(),
        s.after_channel_opened().consistent(),
        s.torn_down().consistent(),
        s.torn_down().holds_nothing(),
        (SessionView { state: to, ..s }).consistent() ==> s.after_transition(to).consistent(),
{
}

} // verus!
