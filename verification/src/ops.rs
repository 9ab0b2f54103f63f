//! The four operations of the escrow ledger: creation, submission, claim and
//! refund. Each re-validates the custody derivation, checks its preconditions
//! in a fixed order, and either mutates the state exactly as its contract
//! says or returns the one error kind its contract names, changing nothing.

use crate::address::{
    derive_poll_address, derive_registry_address, derive_vault_address, pda_of, pda_view,
    poll_seeds, registry_seeds, vault_seeds,
};
use crate::data::{
    bytes_eq, id_eq, EscrowVault, Identity, PollAccount, PollRegistry, Question, UserAnswer,
    UserResult, MAX_OPTIONS, MAX_OPTION_LEN, MAX_POLL_ID_LEN, MAX_QUESTIONS, MAX_RESULTS,
    MAX_TOPIC_LEN, RESULT_RESERVE_BYTES,
};
use crate::errors::ErrorCode;
use crate::model::{
    funded, has_result, lemma_claimed_count_push, lemma_claimed_count_update,
    lemma_result_index_unique, question_wf, result_index, results_cap, wf, AnswerView, PollView,
    QuestionView, ResultView, VaultView,
};
use crate::size::{result_fits, result_footprint};
use vstd::prelude::*;

verus! {

/// The first bound one question violates, if any.
pub open spec fn question_err(q: QuestionView) -> Option<ErrorCode> {
    if q.options.len() > MAX_OPTIONS {
        Some(ErrorCode::TooManyOptions)
    } else if exists|i: int|
        0 <= i < q.options.len() && (#[trigger] q.options[i]).len() > MAX_OPTION_LEN {
        Some(ErrorCode::OptionStringTooLong)
    } else {
        None
    }
}

/// The first bound any question violates, scanning them in order.
pub open spec fn questions_err(qs: Seq<QuestionView>) -> Option<ErrorCode>
    decreases qs.len(),
{
    if qs.len() == 0 {
        None
    } else if question_err(qs.first()) is Some {
        question_err(qs.first())
    } else {
        questions_err(qs.drop_first())
    }
}

/// Why creation refuses these inputs, if it does; checks run in this order.
pub open spec fn create_err(
    poll_id: Seq<u8>,
    reward_amount: u64,
    total_participants: u32,
    topic: Seq<u8>,
    questions: Seq<QuestionView>,
    program_id: Seq<u8>,
) -> Option<ErrorCode> {
    if poll_id.len() > MAX_POLL_ID_LEN {
        Some(ErrorCode::InvalidPollId)
    } else if questions.len() > MAX_QUESTIONS {
        Some(ErrorCode::TooManyQuestions)
    } else if topic.len() > MAX_TOPIC_LEN {
        Some(ErrorCode::TopicTooLong)
    } else if questions_err(questions) is Some {
        questions_err(questions)
    } else if reward_amount * total_participants > u64::MAX {
        Some(ErrorCode::CalculationOverflow)
    } else if pda_of(poll_seeds(poll_id), program_id) is None || pda_of(
        vault_seeds(poll_id),
        program_id,
    ) is None {
        Some(ErrorCode::Unauthorized)
    } else {
        None
    }
}

/// The poll record's recorded address and nonce match a fresh derivation
/// from the identifier the caller named; anything else is unauthorized.
pub open spec fn poll_access_ok(p: PollView, poll_id: Seq<u8>, program_id: Seq<u8>) -> bool {
    pda_of(poll_seeds(poll_id), program_id) == Some((p.address, p.bump))
}

/// The vault's recorded address and nonce match a fresh derivation.
pub open spec fn vault_access_ok(v: VaultView, poll_id: Seq<u8>, program_id: Seq<u8>) -> bool {
    pda_of(vault_seeds(poll_id), program_id) == Some((v.address, v.bump))
}

/// Why a submission fails once the custody derivation has been verified,
/// if it does; checks run in this order.
pub open spec fn submit_core_err(
    p: PollView,
    now: i64,
    user: Seq<u8>,
    answers: Seq<AnswerView>,
) -> Option<ErrorCode> {
    if now > p.active_until {
        Some(ErrorCode::PollExpired)
    } else if has_result(p.results, user) {
        Some(ErrorCode::AlreadyParticipated)
    } else if p.results.len() >= results_cap(p) {
        Some(ErrorCode::AllResultsRecorded)
    } else if answers.len() != p.questions.len() {
        Some(ErrorCode::InvalidPollId)
    } else if result_footprint(answers) > RESULT_RESERVE_BYTES as int {
        Some(ErrorCode::AccountTooLarge)
    } else {
        None
    }
}

/// Why a submission fails, if it does.
pub open spec fn submit_err(
    p: PollView,
    poll_id: Seq<u8>,
    program_id: Seq<u8>,
    now: i64,
    user: Seq<u8>,
    answers: Seq<AnswerView>,
) -> Option<ErrorCode> {
    if !poll_access_ok(p, poll_id, program_id) {
        Some(ErrorCode::Unauthorized)
    } else {
        submit_core_err(p, now, user, answers)
    }
}

/// The result a successful submission appends.
pub open spec fn submitted_result(user: Seq<u8>, answers: Seq<AnswerView>, now: i64) -> ResultView {
    ResultView { user, answers, timestamp: now, claimed: false }
}

/// Why a claim fails once both custody derivations have been verified,
/// if it does; checks run in this order.
pub open spec fn claim_core_err(
    p: PollView,
    v: VaultView,
    user: Seq<u8>,
    poll_id: Seq<u8>,
) -> Option<ErrorCode> {
    if p.poll_id != poll_id {
        Some(ErrorCode::InvalidPollId)
    } else if !has_result(p.results, user) {
        Some(ErrorCode::NoResultsFound)
    } else if p.results[result_index(p.results, user)].claimed {
        Some(ErrorCode::AlreadyClaimed)
    } else if p.claimed_participants >= p.total_participants {
        Some(ErrorCode::AllRewardsClaimed)
    } else if v.balance < p.reward_amount {
        Some(ErrorCode::InsufficientFunds)
    } else {
        None
    }
}

/// Why a claim fails, if it does.
pub open spec fn claim_err(
    p: PollView,
    v: VaultView,
    user: Seq<u8>,
    poll_id: Seq<u8>,
    program_id: Seq<u8>,
) -> Option<ErrorCode> {
    if !poll_access_ok(p, poll_id, program_id) || !vault_access_ok(v, poll_id, program_id) {
        Some(ErrorCode::Unauthorized)
    } else {
        claim_core_err(p, v, user, poll_id)
    }
}

/// The results after the claim at index `i` is paid.
pub open spec fn claimed_results(rs: Seq<ResultView>, i: int) -> Seq<ResultView> {
    rs.update(i, (ResultView { claimed: true, ..rs[i] }))
}

/// Why a refund fails once both custody derivations have been verified,
/// if it does. Only the recorded creator may drain the vault; no state of
/// the vault itself can authorize anyone else.
pub open spec fn refund_core_err(p: PollView, caller: Seq<u8>, poll_id: Seq<u8>) -> Option<
    ErrorCode,
> {
    if p.poll_id != poll_id {
        Some(ErrorCode::InvalidPollId)
    } else if caller != p.creator {
        Some(ErrorCode::Unauthorized)
    } else {
        None
    }
}

/// Why a refund fails, if it does.
pub open spec fn refund_err(
    p: PollView,
    v: VaultView,
    caller: Seq<u8>,
    poll_id: Seq<u8>,
    program_id: Seq<u8>,
) -> Option<ErrorCode> {
    if !poll_access_ok(p, poll_id, program_id) || !vault_access_ok(v, poll_id, program_id) {
        Some(ErrorCode::Unauthorized)
    } else {
        refund_core_err(p, caller, poll_id)
    }
}

/// Check one question's bounds.
fn check_question(q: &Question) -> (r: Option<ErrorCode>)
    ensures
        r == question_err(q.deep_view()),
{
    let ghost opts = q.deep_view().options;
    if q.options.len() > MAX_OPTIONS {
        return Some(ErrorCode::TooManyOptions);
    }
    let mut k: usize = 0;
    while k < q.options.len()
        invariant
            0 <= k <= q.options.len(),
            opts == q.deep_view().options,
            opts.len() == q.options.len(),
            opts.len() <= MAX_OPTIONS,
            forall|j: int| 0 <= j < k ==> (#[trigger] opts[j]).len() <= MAX_OPTION_LEN,
        decreases q.options.len() - k,
    {
        proof {
            assert(opts[k as int] == q.options[k as int].deep_view());
        }
        if q.options[k].len() > MAX_OPTION_LEN {
            proof {
                assert(opts[k as int].len() > MAX_OPTION_LEN);
                assert(exists|i: int|
                    0 <= i < opts.len() && (#[trigger] opts[i]).len() > MAX_OPTION_LEN);
            }
            return Some(ErrorCode::OptionStringTooLong);
        }
        k = k + 1;
    }
    proof {
        assert(question_err(q.deep_view()) is None) by {
            if exists|i: int|
                0 <= i < opts.len() && (#[trigger] opts[i]).len() > MAX_OPTION_LEN {
                let w = choose|i: int|
                    0 <= i < opts.len() && (#[trigger] opts[i]).len() > MAX_OPTION_LEN;
                assert(opts[w].len() <= MAX_OPTION_LEN);
            }
        }
    }
    None
}

/// The index of `user`'s result, scanning in order.
fn find_result(results: &Vec<UserResult>, user: &Identity) -> (r: Option<usize>)
    ensures
        match r {
            Some(i) => 0 <= i < results.deep_view().len() && results.deep_view()[i as int].user
                == user@,
            None => !has_result(results.deep_view(), user@),
        },
{
    let ghost rs = results.deep_view();
    let mut i: usize = 0;
    while i < results.len()
        invariant
            0 <= i <= results.len(),
            rs == results.deep_view(),
            rs.len() == results.len(),
            forall|j: int| 0 <= j < i ==> (#[trigger] rs[j]).user != user@,
        decreases results.len() - i,
    {
        proof {
            assert(rs[i as int] == results[i as int].deep_view());
        }
        if id_eq(&results[i].user, user) {
            return Some(i);
        }
        i = i + 1;
    }
    proof {
        assert(!has_result(rs, user@)) by {
            if has_result(rs, user@) {
                let w = choose|j: int| 0 <= j < rs.len() && (#[trigger] rs[j]).user == user@;
                assert(rs[w].user != user@);
            }
        }
    }
    None
}

/// Record the registry, deriving and storing its verification nonce.
pub fn initialize_registry(program_id: &Identity) -> (r: Option<PollRegistry>)
    ensures
        match pda_of(registry_seeds(), program_id@) {
            Some(p) => r matches Some(reg) && reg.bump == p.1,
            None => r is None,
        },
{
    match derive_registry_address(program_id) {
        Some(ab) => Some(PollRegistry { bump: ab.1 }),
        None => None,
    }
}

/// Create a poll and its vault atomically: validate every configured bound,
/// lock one reward per participant slot into the vault, and record the
/// derived custody addresses with their nonces. On any failure nothing is
/// created.
pub fn create_poll(
    poll_id: Vec<u8>,
    reward_amount: u64,
    total_participants: u32,
    topic: Vec<u8>,
    active_until: i64,
    questions: Vec<Question>,
    creator: &Identity,
    reward_token: &Identity,
    program_id: &Identity,
) -> (r: Result<(PollAccount, EscrowVault), ErrorCode>)
    requires
        1 <= reward_amount,
        1 <= total_participants,
    ensures
        match create_err(
            poll_id@,
            reward_amount,
            total_participants,
            topic@,
            questions.deep_view(),
            program_id@,
        ) {
            Some(e) => r == Err::<(PollAccount, EscrowVault), ErrorCode>(e),
            None => {
                &&& r matches Ok(pv)
                &&& wf(pv.0@)
                &&& funded(pv.0@, pv.1@)
                &&& pv.0@.poll_id == poll_id@
                &&& pv.0@.creator == creator@
                &&& pv.0@.reward_token == reward_token@
                &&& pv.0@.reward_amount == reward_amount
                &&& pv.0@.total_participants == total_participants
                &&& pv.0@.claimed_participants == 0
                &&& pv.0@.topic == topic@
                &&& pv.0@.active_until == active_until
                &&& pv.0@.questions == questions.deep_view()
                &&& pv.0@.results == Seq::<ResultView>::empty()
                &&& Some((pv.0@.address, pv.0@.bump)) == pda_of(poll_seeds(poll_id@), program_id@)
                &&& Some((pv.1@.address, pv.1@.bump)) == pda_of(vault_seeds(poll_id@), program_id@)
                &&& pv.1@.token == reward_token@
                &&& pv.1@.balance == reward_amount * total_participants
            },
        },
{
    let ghost qs = questions.deep_view();
    if poll_id.len() > MAX_POLL_ID_LEN {
        return Err(ErrorCode::InvalidPollId);
    }
    if questions.len() > MAX_QUESTIONS {
        return Err(ErrorCode::TooManyQuestions);
    }
    if topic.len() > MAX_TOPIC_LEN {
        return Err(ErrorCode::TopicTooLong);
    }
    proof {
        assert(qs.skip(0) =~= qs);
    }
    let mut i: usize = 0;
    while i < questions.len()
        invariant
            0 <= i <= questions.len(),
            qs == questions.deep_view(),
            qs.len() == questions.len(),
            poll_id@.len() <= MAX_POLL_ID_LEN,
            qs.len() <= MAX_QUESTIONS,
            topic@.len() <= MAX_TOPIC_LEN,
            questions_err(qs) == questions_err(qs.skip(i as int)),
            forall|j: int| 0 <= j < i ==> question_err(#[trigger] qs[j]) is None,
        decreases questions.len() - i,
    {
        proof {
            assert(qs[i as int] == questions[i as int].deep_view());
            assert(qs.skip(i as int).first() == qs[i as int]);
        }
        if let Some(e) = check_question(&questions[i]) {
            proof {
                assert(questions_err(qs.skip(i as int)) == Some(e));
            }
            return Err(e);
        }
        proof {
            assert(qs.skip(i as int).drop_first() =~= qs.skip(i + 1));
        }
        i = i + 1;
    }
    proof {
        assert(qs.skip(questions.len() as int) =~= Seq::<QuestionView>::empty());
        assert(questions_err(qs) is None);
    }
    let total_amount = match reward_amount.checked_mul(total_participants as u64) {
        Some(t) => t,
        None => {
            return Err(ErrorCode::CalculationOverflow);
        },
    };
    let (poll_addr, poll_bump) = match derive_poll_address(&poll_id, program_id) {
        Some(ab) => ab,
        None => {
            return Err(ErrorCode::Unauthorized);
        },
    };
    let (vault_addr, vault_bump) = match derive_vault_address(&poll_id, program_id) {
        Some(ab) => ab,
        None => {
            return Err(ErrorCode::Unauthorized);
        },
    };
    let poll = PollAccount {
        poll_id,
        creator: *creator,
        reward_token: *reward_token,
        reward_amount,
        total_participants,
        claimed_participants: 0,
        bump: poll_bump,
        address: poll_addr,
        topic,
        active_until,
        questions,
        results: Vec::new(),
    };
    let vault = EscrowVault {
        address: vault_addr,
        bump: vault_bump,
        token: *reward_token,
        balance: total_amount,
    };
    proof {
        assert(poll@.results =~= Seq::<ResultView>::empty());
        assert(poll@.questions == qs);
        assert forall|j: int| 0 <= j < qs.len() implies question_wf(#[trigger] qs[j]) by {
            assert(question_err(qs[j]) is None);
            if exists|k: int|
                0 <= k < qs[j].options.len() && (#[trigger] qs[j].options[k]).len()
                    > MAX_OPTION_LEN {
                assert(question_err(qs[j]) is Some);
            }
        }
        assert(wf(poll@));
    }
    Ok((poll, vault))
}

/// Append one participant's answers: the poll must still be open, the
/// identity must be new, a result slot must be free, the answers must match
/// the questions one for one, and the encoded result must fit its reserve.
/// No token moves here; entitlement and payout are decoupled.
pub fn submit_poll_results(
    poll: &mut PollAccount,
    poll_id: &Vec<u8>,
    answers: Vec<UserAnswer>,
    user: &Identity,
    now: i64,
    program_id: &Identity,
) -> (r: Result<(), ErrorCode>)
    requires
        wf(old(poll)@),
    ensures
        wf(final(poll)@),
        match submit_err(
            old(poll)@,
            poll_id@,
            program_id@,
            now,
            user@,
            answers.deep_view(),
        ) {
            Some(e) => r == Err::<(), ErrorCode>(e) && final(poll)@ == old(poll)@,
            None => r == Ok::<(), ErrorCode>(()) && final(poll)@ == (PollView {
                results: old(poll)@.results.push(
                    submitted_result(user@, answers.deep_view(), now),
                ),
                ..old(poll)@
            }),
        },
        forall|v: VaultView| funded(old(poll)@, v) ==> funded(final(poll)@, v),
{
    let ghost p0 = poll@;
    let ghost ans = answers.deep_view();
    match derive_poll_address(poll_id, program_id) {
        Some(ab) => {
            if !id_eq(&ab.0, &poll.address) || ab.1 != poll.bump {
                return Err(ErrorCode::Unauthorized);
            }
        },
        None => {
            return Err(ErrorCode::Unauthorized);
        },
    }
    proof {
        assert(poll_access_ok(p0, poll_id@, program_id@));
    }
    if now > poll.active_until {
        return Err(ErrorCode::PollExpired);
    }
    if let Some(_) = find_result(&poll.results, user) {
        proof {
            assert(has_result(p0.results, user@));
        }
        return Err(ErrorCode::AlreadyParticipated);
    }
    if poll.results.len() >= MAX_RESULTS || poll.results.len()
        >= poll.total_participants as usize {
        return Err(ErrorCode::AllResultsRecorded);
    }
    if answers.len() != poll.questions.len() {
        return Err(ErrorCode::InvalidPollId);
    }
    if !result_fits(&answers) {
        return Err(ErrorCode::AccountTooLarge);
    }
    let new_result = UserResult { user: *user, answers, timestamp: now, claimed: false };
    proof {
        assert(new_result.deep_view() == submitted_result(user@, ans, now));
    }
    poll.results.push(new_result);
    proof {
        let rs0 = p0.results;
        let rv = submitted_result(user@, ans, now);
        assert(poll@.results =~= rs0.push(rv));
        assert(poll@ == (PollView { results: rs0.push(rv), ..p0 }));
        let rs1 = rs0.push(rv);
        assert forall|i: int, j: int| 0 <= i < j < rs1.len() implies (#[trigger] rs1[i]).user != (
        #[trigger] rs1[j]).user by {
            if j == rs1.len() - 1 {
                assert(rs1[i] == rs0[i]);
                if rs0[i].user == user@ {
                    assert(has_result(rs0, user@));
                }
            } else {
                assert(rs1[i] == rs0[i]);
                assert(rs1[j] == rs0[j]);
            }
        }
        lemma_claimed_count_push(rs0, rv);
        assert forall|i: int| 0 <= i < rs1.len() implies (#[trigger] rs1[i]).answers.len()
            == poll@.questions.len() by {
            if i < rs1.len() - 1 {
                assert(rs1[i] == rs0[i]);
            }
        }
        assert(wf(poll@));
    }
    Ok(())
}

/// Pay `user`'s reward exactly once: the recorded result must exist and be
/// unclaimed, a reward must remain, and the vault must cover it. The vault
/// pays before the claim is marked, and the marking plus the monotone
/// counter are the only mechanism; a paid claim can never pay again.
pub fn claim_reward(
    poll: &mut PollAccount,
    vault: &mut EscrowVault,
    poll_id: &Vec<u8>,
    user: &Identity,
    program_id: &Identity,
) -> (r: Result<(), ErrorCode>)
    requires
        wf(old(poll)@),
    ensures
        wf(final(poll)@),
        match claim_err(old(poll)@, old(vault)@, user@, poll_id@, program_id@) {
            Some(e) => r == Err::<(), ErrorCode>(e) && final(poll)@ == old(poll)@ && final(vault)@
                == old(vault)@,
            None => {
                &&& r == Ok::<(), ErrorCode>(())
                &&& final(poll)@ == (PollView {
                    claimed_participants: (old(poll)@.claimed_participants + 1) as u32,
                    results: claimed_results(
                        old(poll)@.results,
                        result_index(old(poll)@.results, user@),
                    ),
                    ..old(poll)@
                })
                &&& final(vault)@ == (VaultView {
                    balance: (old(vault)@.balance - old(poll)@.reward_amount) as u64,
                    ..old(vault)@
                })
            },
        },
        funded(old(poll)@, old(vault)@) && r is Ok ==> funded(final(poll)@, final(vault)@),
{
    let ghost p0 = poll@;
    let ghost v0 = vault@;
    match derive_poll_address(poll_id, program_id) {
        Some(ab) => {
            if !id_eq(&ab.0, &poll.address) || ab.1 != poll.bump {
                return Err(ErrorCode::Unauthorized);
            }
        },
        None => {
            return Err(ErrorCode::Unauthorized);
        },
    }
    match derive_vault_address(poll_id, program_id) {
        Some(ab) => {
            if !id_eq(&ab.0, &vault.address) || ab.1 != vault.bump {
                return Err(ErrorCode::Unauthorized);
            }
        },
        None => {
            return Err(ErrorCode::Unauthorized);
        },
    }
    proof {
        assert(poll_access_ok(p0, poll_id@, program_id@));
        assert(vault_access_ok(v0, poll_id@, program_id@));
    }
    if !bytes_eq(&poll.poll_id, poll_id) {
        return Err(ErrorCode::InvalidPollId);
    }
    let idx = match find_result(&poll.results, user) {
        Some(i) => i,
        None => {
            return Err(ErrorCode::NoResultsFound);
        },
    };
    proof {
        lemma_result_index_unique(p0.results, user@, idx as int);
    }
    if poll.results[idx].claimed {
        proof {
            assert(p0.results[idx as int].claimed);
        }
        return Err(ErrorCode::AlreadyClaimed);
    }
    if poll.claimed_participants >= poll.total_participants {
        return Err(ErrorCode::AllRewardsClaimed);
    }
    if vault.balance < poll.reward_amount {
        return Err(ErrorCode::InsufficientFunds);
    }
    // the custody transfer happens first; only after it succeeds is the
    // claim marked as paid
    vault.balance = vault.balance - poll.reward_amount;
    let paid = poll.results.remove(idx);
    let paid_flipped = UserResult { claimed: true, ..paid };
    poll.results.insert(idx, paid_flipped);
    poll.claimed_participants = poll.claimed_participants + 1;
    proof {
        let rs1 = claimed_results(p0.results, idx as int);
        assert(poll@.results =~= rs1);
        assert(poll@ == (PollView {
            claimed_participants: (p0.claimed_participants + 1) as u32,
            results: rs1,
            ..p0
        }));
        assert(vault@ == (VaultView { balance: (v0.balance - p0.reward_amount) as u64, ..v0 }));
        lemma_claimed_count_update(
            p0.results,
            idx as int,
            (ResultView { claimed: true, ..p0.results[idx as int] }),
        );
        assert forall|i: int, j: int| 0 <= i < j < rs1.len() implies (#[trigger] rs1[i]).user != (
        #[trigger] rs1[j]).user by {
            assert(rs1[i].user == p0.results[i].user);
            assert(rs1[j].user == p0.results[j].user);
        }
        assert forall|i: int| 0 <= i < rs1.len() implies (#[trigger] rs1[i]).answers.len()
            == poll@.questions.len() by {
            assert(rs1[i].answers == p0.results[i].answers);
        }
        assert(wf(poll@));
        if funded(p0, v0) {
            let ra = p0.reward_amount as int;
            let t = p0.total_participants as int;
            let c = p0.claimed_participants as int;
            assert(ra * (t - c) - ra == ra * (t - (c + 1))) by (nonlinear_arith);
        }
    }
    Ok(())
}

/// Drain the vault's entire current balance back to the poll's creator. Only
/// the recorded creator may do this, whatever the vault holds; the operation
/// retires the poll's economic lifecycle.
pub fn refund_poll(
    poll: &PollAccount,
    vault: &mut EscrowVault,
    poll_id: &Vec<u8>,
    caller: &Identity,
    program_id: &Identity,
) -> (r: Result<(), ErrorCode>)
    ensures
        match refund_err(poll@, old(vault)@, caller@, poll_id@, program_id@) {
            Some(e) => r == Err::<(), ErrorCode>(e) && final(vault)@ == old(vault)@,
            None => r == Ok::<(), ErrorCode>(()) && final(vault)@ == (VaultView {
                balance: 0u64,
                ..old(vault)@
            }),
        },
{
    let ghost v0 = vault@;
    match derive_poll_address(poll_id, program_id) {
        Some(ab) => {
            if !id_eq(&ab.0, &poll.address) || ab.1 != poll.bump {
                return Err(ErrorCode::Unauthorized);
            }
        },
        None => {
            return Err(ErrorCode::Unauthorized);
        },
    }
    match derive_vault_address(poll_id, program_id) {
        Some(ab) => {
            if !id_eq(&ab.0, &vault.address) || ab.1 != vault.bump {
                return Err(ErrorCode::Unauthorized);
            }
        },
        None => {
            return Err(ErrorCode::Unauthorized);
        },
    }
    if !bytes_eq(&poll.poll_id, poll_id) {
        return Err(ErrorCode::InvalidPollId);
    }
    if !id_eq(caller, &poll.creator) {
        return Err(ErrorCode::Unauthorized);
    }
    vault.balance = 0;
    proof {
        assert(vault@ == (VaultView { balance: 0u64, ..v0 }));
    }
    Ok(())
}

} // verus!
