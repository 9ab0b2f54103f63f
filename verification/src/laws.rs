//! The safety laws of the ledger, stated over the same spec functions the
//! operations' contracts use and proved once and for all states.

use crate::errors::ErrorCode;
use crate::model::{
    claimed_count, funded, has_result, lemma_result_index_unique, result_index, results_cap, wf,
    AnswerView, PollView, VaultView,
};
use crate::ops::{claim_core_err, claimed_results, refund_err, submit_core_err};
use crate::size::result_footprint;
use crate::data::RESULT_RESERVE_BYTES;
use vstd::prelude::*;

verus! {

/// Submission is idempotent per identity: while the poll is open, a second
/// submission by an identity that already holds a result is always refused
/// as a state conflict, whatever it answers.
pub proof fn lemma_resubmission_refused(
    p: PollView,
    now: i64,
    user: Seq<u8>,
    answers: Seq<AnswerView>,
)
    requires
        now <= p.active_until,
        has_result(p.results, user),
    ensures
        submit_core_err(p, now, user, answers) == Some(ErrorCode::AlreadyParticipated),
{
}

/// A reward is paid at most once: after a successful claim by `user`, any
/// further claim by the same identity is refused as a state conflict, on the
/// updated poll and whatever the vault then holds.
pub proof fn lemma_claim_at_most_once(
    p: PollView,
    v: VaultView,
    v2: VaultView,
    user: Seq<u8>,
    poll_id: Seq<u8>,
)
    requires
        wf(p),
        claim_core_err(p, v, user, poll_id) is None,
    ensures
        ({
            let p1 = PollView {
                claimed_participants: (p.claimed_participants + 1) as u32,
                results: claimed_results(p.results, result_index(p.results, user)),
                ..p
            };
            claim_core_err(p1, v2, user, poll_id) == Some(ErrorCode::AlreadyClaimed)
        }),
{
    let i = result_index(p.results, user);
    assert(0 <= i < p.results.len() && p.results[i].user == user);
    let rs1 = claimed_results(p.results, i);
    assert(rs1[i].user == user);
    assert forall|a: int, b: int| 0 <= a < b < rs1.len() implies (#[trigger] rs1[a]).user != (
    #[trigger] rs1[b]).user by {
        assert(rs1[a].user == p.results[a].user);
        assert(rs1[b].user == p.results[b].user);
    }
    lemma_result_index_unique(rs1, user, i);
    assert(rs1[result_index(rs1, user)].claimed);
}

/// Submission strictly after the deadline is always refused as a temporal
/// error, whatever else holds of the poll or the submission.
pub proof fn lemma_submission_after_deadline(
    p: PollView,
    now: i64,
    user: Seq<u8>,
    answers: Seq<AnswerView>,
)
    requires
        now > p.active_until,
    ensures
        submit_core_err(p, now, user, answers) == Some(ErrorCode::PollExpired),
{
}

/// Submission exactly at the deadline is accepted, provided the submission
/// is otherwise acceptable: a fresh identity, a free slot, one answer per
/// question, and a result that fits its reserve.
pub proof fn lemma_submission_at_deadline(
    p: PollView,
    now: i64,
    user: Seq<u8>,
    answers: Seq<AnswerView>,
)
    requires
        now == p.active_until,
        !has_result(p.results, user),
        p.results.len() < results_cap(p),
        answers.len() == p.questions.len(),
        result_footprint(answers) <= RESULT_RESERVE_BYTES as int,
    ensures
        submit_core_err(p, now, user, answers) is None,
{
}

/// No over-payout: a funded, well-formed poll's vault always covers one full
/// reward for every recorded result that is still unclaimed.
pub proof fn lemma_vault_covers_entitlements(p: PollView, v: VaultView)
    requires
        wf(p),
        funded(p, v),
    ensures
        v.balance >= p.reward_amount * (p.results.len() - claimed_count(p.results)),
{
    let ra = p.reward_amount as int;
    let t = p.total_participants as int;
    let c = p.claimed_participants as int;
    let n = p.results.len() as int;
    assert(ra * (t - c) >= ra * (n - c)) by (nonlinear_arith)
        requires
            ra >= 0,
            n <= t,
    ;
}

/// Only the recorded creator can be refunded: a refund request for this poll
/// by any other identity is refused as unauthorized, whatever the vault
/// holds and whatever program identity the caller names.
pub proof fn lemma_refund_only_creator(
    p: PollView,
    v: VaultView,
    caller: Seq<u8>,
    poll_id: Seq<u8>,
    program_id: Seq<u8>,
)
    requires
        p.poll_id == poll_id,
        caller != p.creator,
    ensures
        refund_err(p, v, caller, poll_id, program_id) == Some(ErrorCode::Unauthorized),
{
}

} // verus!
