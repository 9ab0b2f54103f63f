//! The mathematical model that every contract speaks of: ghost views of the
//! poll record and the vault, and the invariants that creation establishes
//! and every operation preserves.

use crate::data::{
    MAX_OPTIONS, MAX_OPTION_LEN, MAX_POLL_ID_LEN, MAX_QUESTIONS, MAX_RESULTS, MAX_TOPIC_LEN,
    QuestionType,
};
use vstd::prelude::*;

verus! {

/// Ghost view of one configured question.
pub struct QuestionView {
    pub question_type: QuestionType,
    pub options: Seq<Seq<u8>>,
}

/// Ghost view of one answer.
pub enum AnswerView {
    Single(Seq<u8>),
    Multiple(Seq<Seq<u8>>),
}

/// Ghost view of one recorded submission.
pub struct ResultView {
    pub user: Seq<u8>,
    pub answers: Seq<AnswerView>,
    pub timestamp: i64,
    pub claimed: bool,
}

/// Ghost view of one poll record.
pub struct PollView {
    pub poll_id: Seq<u8>,
    pub creator: Seq<u8>,
    pub reward_token: Seq<u8>,
    pub reward_amount: u64,
    pub total_participants: u32,
    pub claimed_participants: u32,
    pub bump: u8,
    pub address: Seq<u8>,
    pub topic: Seq<u8>,
    pub active_until: i64,
    pub questions: Seq<QuestionView>,
    pub results: Seq<ResultView>,
}

/// Ghost view of one escrow vault.
pub struct VaultView {
    pub address: Seq<u8>,
    pub bump: u8,
    pub token: Seq<u8>,
    pub balance: u64,
}

/// Some recorded result belongs to `user`.
pub open spec fn has_result(rs: Seq<ResultView>, user: Seq<u8>) -> bool {
    exists|i: int| 0 <= i < rs.len() && (#[trigger] rs[i]).user == user
}

/// The index of `user`'s recorded result. Meaningful only when `has_result`
/// holds; under `distinct_users` it is the one such index.
pub open spec fn result_index(rs: Seq<ResultView>, user: Seq<u8>) -> int {
    choose|i: int| 0 <= i < rs.len() && (#[trigger] rs[i]).user == user
}

/// No two recorded results share a participant identity.
pub open spec fn distinct_users(rs: Seq<ResultView>) -> bool {
    forall|i: int, j: int|
        0 <= i < j < rs.len() ==> (#[trigger] rs[i]).user != (#[trigger] rs[j]).user
}

/// How many recorded results are already claimed.
pub open spec fn claimed_count(rs: Seq<ResultView>) -> int
    decreases rs.len(),
{
    if rs.len() == 0 {
        0
    } else {
        claimed_count(rs.drop_last()) + if rs.last().claimed {
            1int
        } else {
            0int
        }
    }
}

/// How many result slots this poll may ever fill: its participant count,
/// but never more than the storage ceiling.
pub open spec fn results_cap(p: PollView) -> int {
    if p.total_participants <= MAX_RESULTS {
        p.total_participants as int
    } else {
        MAX_RESULTS as int
    }
}

/// Bounds on one question's configuration.
pub open spec fn question_wf(q: QuestionView) -> bool {
    &&& q.options.len() <= MAX_OPTIONS
    &&& forall|i: int| 0 <= i < q.options.len() ==> (#[trigger] q.options[i]).len() <= MAX_OPTION_LEN
}

/// Bounds on a poll's immutable configuration, checked at creation.
pub open spec fn config_wf(p: PollView) -> bool {
    &&& p.poll_id.len() <= MAX_POLL_ID_LEN
    &&& p.topic.len() <= MAX_TOPIC_LEN
    &&& p.questions.len() <= MAX_QUESTIONS
    &&& forall|i: int| 0 <= i < p.questions.len() ==> question_wf(#[trigger] p.questions[i])
}

/// Well-formedness of a poll record: what creation establishes and every
/// operation preserves.
pub open spec fn wf(p: PollView) -> bool {
    &&& 1 <= p.reward_amount
    &&& 1 <= p.total_participants
    &&& p.claimed_participants <= p.total_participants
    &&& p.results.len() <= results_cap(p)
    &&& distinct_users(p.results)
    &&& claimed_count(p.results) == p.claimed_participants
    &&& forall|i: int|
        0 <= i < p.results.len() ==> (#[trigger] p.results[i]).answers.len() == p.questions.len()
    &&& config_wf(p)
}

/// The custody invariant: the vault holds exactly one reward for every
/// participant slot not yet claimed. Creation establishes it, submission and
/// claiming preserve it, and a refund retires the poll by draining it.
pub open spec fn funded(p: PollView, v: VaultView) -> bool {
    v.balance == p.reward_amount * (p.total_participants - p.claimed_participants)
}

/// Appending an unclaimed result leaves the claimed count unchanged.
pub proof fn lemma_claimed_count_push(rs: Seq<ResultView>, r: ResultView)
    requires
        !r.claimed,
    ensures
        claimed_count(rs.push(r)) == claimed_count(rs),
{
    assert(rs.push(r).drop_last() =~= rs);
}

/// Under distinct identities, any index holding `user` is the one
/// `result_index` denotes.
pub proof fn lemma_result_index_unique(rs: Seq<ResultView>, user: Seq<u8>, i: int)
    requires
        distinct_users(rs),
        0 <= i < rs.len(),
        rs[i].user == user,
    ensures
        has_result(rs, user),
        result_index(rs, user) == i,
{
    assert(has_result(rs, user));
    let j = result_index(rs, user);
    assert(0 <= j < rs.len() && rs[j].user == user);
    if j < i {
        assert(rs[j].user != rs[i].user);
    } else if i < j {
        assert(rs[i].user != rs[j].user);
    }
}

/// Claiming one unclaimed result raises the claimed count by exactly one.
pub proof fn lemma_claimed_count_update(rs: Seq<ResultView>, i: int, r: ResultView)
    requires
        0 <= i < rs.len(),
        !rs[i].claimed,
        r.claimed,
    ensures
        claimed_count(rs.update(i, r)) == claimed_count(rs) + 1,
    decreases rs.len(),
{
    let upd = rs.update(i, r);
    if i == rs.len() - 1 {
        assert(upd.drop_last() =~= rs.drop_last());
        assert(upd.last() == r);
    } else {
        assert(upd.drop_last() =~= rs.drop_last().update(i, r));
        assert(upd.last() == rs.last());
        lemma_claimed_count_update(rs.drop_last(), i, r);
    }
}

} // verus!
