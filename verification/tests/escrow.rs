use poll_escrow::data::{EscrowVault, Identity, PollAccount, Question, QuestionType, UserAnswer};
use poll_escrow::errors::ErrorCode;
use poll_escrow::address::{derive_poll_address, derive_registry_address, derive_vault_address};
use poll_escrow::ops::{
    claim_reward, create_poll, initialize_registry, refund_poll, submit_poll_results,
};
use poll_escrow::size::calculate_poll_account_size;

fn program_id() -> Identity {
    [1u8; 32]
}

fn ident(tag: u8) -> Identity {
    [tag; 32]
}

fn one_question() -> Vec<Question> {
    vec![Question {
        question_type: QuestionType::One,
        options: vec![b"yes".to_vec(), b"no".to_vec()],
    }]
}

fn one_answer() -> Vec<UserAnswer> {
    vec![UserAnswer::Single(b"yes".to_vec())]
}

fn make_poll(reward: u64, total: u32) -> (PollAccount, EscrowVault, Vec<u8>) {
    let poll_id = b"poll-1".to_vec();
    let r = create_poll(
        poll_id.clone(),
        reward,
        total,
        b"favorite color".to_vec(),
        1_000,
        one_question(),
        &ident(10),
        &ident(20),
        &program_id(),
    );
    let (poll, vault) = r.unwrap();
    (poll, vault, poll_id)
}

#[test]
fn create_locks_reward_pool() {
    let (poll, vault, poll_id) = make_poll(100, 3);
    assert_eq!(vault.balance, 300);
    assert_eq!(poll.poll_id, poll_id);
    assert_eq!(poll.creator, ident(10));
    assert_eq!(poll.reward_token, ident(20));
    assert_eq!(poll.reward_amount, 100);
    assert_eq!(poll.total_participants, 3);
    assert_eq!(poll.claimed_participants, 0);
    assert_eq!(poll.active_until, 1_000);
    assert!(poll.results.is_empty());
    assert_eq!(vault.token, ident(20));
}

#[test]
fn create_records_the_derivation() {
    let (poll, vault, poll_id) = make_poll(5, 2);
    let (pa, pb) = derive_poll_address(&poll_id, &program_id()).unwrap();
    let (va, vb) = derive_vault_address(&poll_id, &program_id()).unwrap();
    assert_eq!(poll.address, pa);
    assert_eq!(poll.bump, pb);
    assert_eq!(vault.address, va);
    assert_eq!(vault.bump, vb);
    // the derivation really transforms its inputs, and namespaces them
    assert_ne!(pa, program_id());
    assert_ne!(va, program_id());
    assert_ne!(pa, va);
}

#[test]
fn create_overflow_is_refused() {
    let r = create_poll(
        b"big".to_vec(),
        u64::MAX,
        2,
        Vec::new(),
        0,
        Vec::new(),
        &ident(1),
        &ident(2),
        &program_id(),
    );
    assert_eq!(r.unwrap_err(), ErrorCode::CalculationOverflow);
}

#[test]
fn create_poll_id_too_long_is_refused() {
    let r = create_poll(
        vec![7u8; 33],
        1,
        1,
        Vec::new(),
        0,
        Vec::new(),
        &ident(1),
        &ident(2),
        &program_id(),
    );
    assert_eq!(r.unwrap_err(), ErrorCode::InvalidPollId);
}

#[test]
fn create_too_many_questions_is_refused() {
    let mut questions = Vec::new();
    for _ in 0..11 {
        questions.push(Question { question_type: QuestionType::Many, options: Vec::new() });
    }
    let r = create_poll(
        b"q".to_vec(),
        1,
        1,
        Vec::new(),
        0,
        questions,
        &ident(1),
        &ident(2),
        &program_id(),
    );
    assert_eq!(r.unwrap_err(), ErrorCode::TooManyQuestions);
}

#[test]
fn create_topic_too_long_is_refused() {
    let r = create_poll(
        b"t".to_vec(),
        1,
        1,
        vec![b'x'; 201],
        0,
        Vec::new(),
        &ident(1),
        &ident(2),
        &program_id(),
    );
    assert_eq!(r.unwrap_err(), ErrorCode::TopicTooLong);
}

#[test]
fn create_too_many_options_is_refused() {
    let questions = vec![Question {
        question_type: QuestionType::One,
        options: vec![b"o".to_vec(); 11],
    }];
    let r = create_poll(
        b"o".to_vec(),
        1,
        1,
        Vec::new(),
        0,
        questions,
        &ident(1),
        &ident(2),
        &program_id(),
    );
    assert_eq!(r.unwrap_err(), ErrorCode::TooManyOptions);
}

#[test]
fn create_option_too_long_is_refused() {
    let questions = vec![Question {
        question_type: QuestionType::One,
        options: vec![vec![b'x'; 101]],
    }];
    let r = create_poll(
        b"l".to_vec(),
        1,
        1,
        Vec::new(),
        0,
        questions,
        &ident(1),
        &ident(2),
        &program_id(),
    );
    assert_eq!(r.unwrap_err(), ErrorCode::OptionStringTooLong);
}

#[test]
fn full_lifecycle_claim_and_refund() {
    let (mut poll, mut vault, poll_id) = make_poll(100, 3);
    let alice = ident(50);
    let bob = ident(51);
    let carol = ident(52);
    let pid = program_id();

    // two distinct participants submit
    submit_poll_results(&mut poll, &poll_id, one_answer(), &alice, 500, &pid).unwrap();
    submit_poll_results(&mut poll, &poll_id, one_answer(), &bob, 600, &pid).unwrap();
    assert_eq!(poll.results.len(), 2);
    assert_eq!(poll.results[0].timestamp, 500);
    assert!(!poll.results[0].claimed);

    // one claims
    claim_reward(&mut poll, &mut vault, &poll_id, &alice, &pid).unwrap();
    assert_eq!(vault.balance, 200);
    assert_eq!(poll.claimed_participants, 1);
    assert!(poll.results[0].claimed);
    assert!(!poll.results[1].claimed);

    // the creator refunds the remainder
    refund_poll(&poll, &mut vault, &poll_id, &ident(10), &pid).unwrap();
    assert_eq!(vault.balance, 0);

    // the paid participant cannot claim again
    let again = claim_reward(&mut poll, &mut vault, &poll_id, &alice, &pid);
    assert_eq!(again.unwrap_err(), ErrorCode::AlreadyClaimed);

    // an unsubmitted identity has nothing to claim
    let none = claim_reward(&mut poll, &mut vault, &poll_id, &carol, &pid);
    assert_eq!(none.unwrap_err(), ErrorCode::NoResultsFound);

    // the drained vault can no longer cover the entitled participant
    let broke = claim_reward(&mut poll, &mut vault, &poll_id, &bob, &pid);
    assert_eq!(broke.unwrap_err(), ErrorCode::InsufficientFunds);
    assert!(!poll.results[1].claimed);
    assert_eq!(poll.claimed_participants, 1);
}

#[test]
fn single_slot_fills_up() {
    let (mut poll, _vault, poll_id) = make_poll(10, 1);
    let pid = program_id();
    submit_poll_results(&mut poll, &poll_id, one_answer(), &ident(60), 0, &pid).unwrap();
    let r = submit_poll_results(&mut poll, &poll_id, one_answer(), &ident(61), 0, &pid);
    assert_eq!(r.unwrap_err(), ErrorCode::AllResultsRecorded);
    assert_eq!(poll.results.len(), 1);
}

#[test]
fn submission_after_deadline_is_refused() {
    let (mut poll, _vault, poll_id) = make_poll(10, 2);
    let r = submit_poll_results(&mut poll, &poll_id, one_answer(), &ident(1), 1_001, &program_id());
    assert_eq!(r.unwrap_err(), ErrorCode::PollExpired);
}

#[test]
fn submission_at_deadline_is_accepted() {
    let (mut poll, _vault, poll_id) = make_poll(10, 2);
    submit_poll_results(&mut poll, &poll_id, one_answer(), &ident(1), 1_000, &program_id())
        .unwrap();
    assert_eq!(poll.results.len(), 1);
    assert_eq!(poll.results[0].timestamp, 1_000);
}

#[test]
fn resubmission_is_refused() {
    let (mut poll, _vault, poll_id) = make_poll(10, 3);
    let pid = program_id();
    submit_poll_results(&mut poll, &poll_id, one_answer(), &ident(5), 0, &pid).unwrap();
    let r = submit_poll_results(&mut poll, &poll_id, one_answer(), &ident(5), 1, &pid);
    assert_eq!(r.unwrap_err(), ErrorCode::AlreadyParticipated);
    assert_eq!(poll.results.len(), 1);
}

#[test]
fn answer_count_must_match_questions() {
    let (mut poll, _vault, poll_id) = make_poll(10, 2);
    let r = submit_poll_results(&mut poll, &poll_id, Vec::new(), &ident(5), 0, &program_id());
    assert_eq!(r.unwrap_err(), ErrorCode::InvalidPollId);
}

#[test]
fn oversized_result_is_refused() {
    let (mut poll, _vault, poll_id) = make_poll(10, 2);
    let huge = vec![UserAnswer::Single(vec![b'x'; 200])];
    let r = submit_poll_results(&mut poll, &poll_id, huge, &ident(5), 0, &program_id());
    assert_eq!(r.unwrap_err(), ErrorCode::AccountTooLarge);
}

#[test]
fn multiple_choice_answers_are_stored() {
    let poll_id = b"multi".to_vec();
    let questions = vec![Question {
        question_type: QuestionType::Many,
        options: vec![b"a".to_vec(), b"b".to_vec(), b"c".to_vec()],
    }];
    let (mut poll, _vault) = create_poll(
        poll_id.clone(),
        1,
        1,
        Vec::new(),
        10,
        questions,
        &ident(1),
        &ident(2),
        &program_id(),
    )
    .unwrap();
    let answers = vec![UserAnswer::Multiple(vec![b"a".to_vec(), b"c".to_vec()])];
    submit_poll_results(&mut poll, &poll_id, answers, &ident(5), 3, &program_id()).unwrap();
    match &poll.results[0].answers[0] {
        UserAnswer::Multiple(picked) => assert_eq!(picked.len(), 2),
        UserAnswer::Single(_) => panic!("expected a multiple-choice answer"),
    }
}

#[test]
fn refund_by_stranger_is_refused() {
    let (poll, mut vault, poll_id) = make_poll(10, 2);
    let r = refund_poll(&poll, &mut vault, &poll_id, &ident(99), &program_id());
    assert_eq!(r.unwrap_err(), ErrorCode::Unauthorized);
    assert_eq!(vault.balance, 20);
}

#[test]
fn wrong_poll_id_fails_the_derivation_check() {
    let (mut poll, mut vault, _poll_id) = make_poll(10, 2);
    let other = b"poll-2".to_vec();
    let r = claim_reward(&mut poll, &mut vault, &other, &ident(5), &program_id());
    assert_eq!(r.unwrap_err(), ErrorCode::Unauthorized);
    let r = refund_poll(&poll, &mut vault, &other, &ident(10), &program_id());
    assert_eq!(r.unwrap_err(), ErrorCode::Unauthorized);
}

#[test]
fn wrong_program_fails_the_derivation_check() {
    let (mut poll, _vault, poll_id) = make_poll(10, 2);
    let r = submit_poll_results(&mut poll, &poll_id, one_answer(), &ident(5), 0, &ident(9));
    assert_eq!(r.unwrap_err(), ErrorCode::Unauthorized);
}

#[test]
fn size_calculator_exact_value() {
    let poll_id = b"ab".to_vec();
    let topic = b"t".to_vec();
    let questions = vec![Question {
        question_type: QuestionType::One,
        options: vec![b"x".to_vec(), b"xy".to_vec()],
    }];
    let size = calculate_poll_account_size(&poll_id, &topic, &questions);
    // fixed fields and prefixes: 8 + (4+2) + 32 + 32 + 8 + 4 + 4 + 1 + (4+1) + 8 + 4 = 112
    // the question: 1 + 4 + (4+1) + (4+2) = 16
    // the results reserve: 4 + 1000 * 200 = 200004
    assert_eq!(size, 112 + 16 + 200004);
}

#[test]
fn size_calculator_empty_configuration() {
    let size = calculate_poll_account_size(&Vec::new(), &Vec::new(), &Vec::new());
    assert_eq!(size, 8 + 4 + 32 + 32 + 8 + 4 + 4 + 1 + 4 + 8 + 4 + 4 + 200_000);
}

#[test]
fn boundary_lengths_are_accepted() {
    let mut questions = Vec::new();
    for _ in 0..10 {
        questions.push(Question {
            question_type: QuestionType::One,
            options: vec![vec![b'o'; 100]; 10],
        });
    }
    let r = create_poll(
        vec![b'i'; 32],
        1,
        1,
        vec![b't'; 200],
        0,
        questions,
        &ident(1),
        &ident(2),
        &program_id(),
    );
    assert!(r.is_ok());
}

#[test]
fn poll_without_questions_accepts_empty_answers() {
    let poll_id = b"plain".to_vec();
    let (mut poll, _vault) = create_poll(
        poll_id.clone(),
        1,
        1,
        Vec::new(),
        10,
        Vec::new(),
        &ident(1),
        &ident(2),
        &program_id(),
    )
    .unwrap();
    submit_poll_results(&mut poll, &poll_id, Vec::new(), &ident(5), 3, &program_id()).unwrap();
    assert_eq!(poll.results[0].answers.len(), 0);
}

#[test]
fn result_exactly_at_reserve_is_accepted() {
    // a single answer string of 150 bytes encodes the stored result to
    // exactly the 200-byte per-result reserve; one more byte exceeds it
    let (mut poll, _vault, poll_id) = make_poll(10, 3);
    let at_limit = vec![UserAnswer::Single(vec![b'x'; 150])];
    submit_poll_results(&mut poll, &poll_id, at_limit, &ident(70), 0, &program_id()).unwrap();
    let over_limit = vec![UserAnswer::Single(vec![b'x'; 151])];
    let r = submit_poll_results(&mut poll, &poll_id, over_limit, &ident(71), 0, &program_id());
    assert_eq!(r.unwrap_err(), ErrorCode::AccountTooLarge);
}

#[test]
fn registry_records_its_nonce() {
    let reg = initialize_registry(&program_id()).unwrap();
    let (_, bump) = derive_registry_address(&program_id()).unwrap();
    assert_eq!(reg.bump, bump);
}

#[test]
fn derivation_is_reproducible() {
    let poll_id = b"stable".to_vec();
    let a = derive_poll_address(&poll_id, &program_id()).unwrap();
    let b = derive_poll_address(&poll_id, &program_id()).unwrap();
    assert_eq!(a, b);
    let other = derive_poll_address(&b"other".to_vec(), &program_id()).unwrap();
    assert_ne!(a.0, other.0);
}
