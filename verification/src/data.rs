use crate::model::{AnswerView, PollView, QuestionView, ResultView, VaultView};
use vstd::prelude::*;

verus! {

/// Longest accepted poll identifier, in bytes. It doubles as a derivation
/// seed, and a seed is capped at 32 bytes.
pub const MAX_POLL_ID_LEN: usize = 32;

/// Most questions a poll may carry.
pub const MAX_QUESTIONS: usize = 10;

/// Most options one question may carry.
pub const MAX_OPTIONS: usize = 10;

/// Longest accepted option string, in bytes.
pub const MAX_OPTION_LEN: usize = 100;

/// Longest accepted topic string, in bytes.
pub const MAX_TOPIC_LEN: usize = 200;

/// Ceiling on stored results per poll, independent of its participant count.
pub const MAX_RESULTS: usize = 1000;

/// Bytes reserved in a poll record for one stored result. A submission whose
/// encoded result would not fit in this reserve is refused.
pub const RESULT_RESERVE_BYTES: usize = 200;

/// A 32-byte account identity: a participant, a creator, a token kind, a
/// program, or a derived custody address.
pub type Identity = [u8; 32];

/// Whether one question accepts a single choice or several.
#[derive(Clone, Copy, Debug, PartialEq, Eq, Structural)]
pub enum QuestionType {
    One,
    Many,
}

/// One configured question: its kind and its option strings (UTF-8 bytes).
#[derive(Debug)]
pub struct Question {
    pub question_type: QuestionType,
    pub options: Vec<Vec<u8>>,
}

impl DeepView for Question {
    type V = QuestionView;

    open spec fn deep_view(&self) -> QuestionView {
        QuestionView { question_type: self.question_type, options: self.options.deep_view() }
    }
}

/// One participant's answer to one question, order-aligned with the
/// configured questions.
#[derive(Debug)]
pub enum UserAnswer {
    Single(Vec<u8>),
    Multiple(Vec<Vec<u8>>),
}

impl DeepView for UserAnswer {
    type V = AnswerView;

    open spec fn deep_view(&self) -> AnswerView {
        match self {
            UserAnswer::Single(s) => AnswerView::Single(s.deep_view()),
            UserAnswer::Multiple(m) => AnswerView::Multiple(m.deep_view()),
        }
    }
}

/// One participant's recorded submission. `claimed` moves false to true at
/// most once, when the reward is paid.
#[derive(Debug)]
pub struct UserResult {
    pub user: Identity,
    pub answers: Vec<UserAnswer>,
    pub timestamp: i64,
    pub claimed: bool,
}

impl DeepView for UserResult {
    type V = ResultView;

    open spec fn deep_view(&self) -> ResultView {
        ResultView {
            user: self.user@,
            answers: self.answers.deep_view(),
            timestamp: self.timestamp,
            claimed: self.claimed,
        }
    }
}

/// The aggregate state of one poll: immutable configuration, the append-only
/// results, and the claim counter.
#[derive(Debug)]
pub struct PollAccount {
    pub poll_id: Vec<u8>,
    pub creator: Identity,
    pub reward_token: Identity,
    pub reward_amount: u64,
    pub total_participants: u32,
    pub claimed_participants: u32,
    pub bump: u8,
    pub address: Identity,
    pub topic: Vec<u8>,
    pub active_until: i64,
    pub questions: Vec<Question>,
    pub results: Vec<UserResult>,
}

impl View for PollAccount {
    type V = PollView;

    open spec fn view(&self) -> PollView {
        PollView {
            poll_id: self.poll_id@,
            creator: self.creator@,
            reward_token: self.reward_token@,
            reward_amount: self.reward_amount,
            total_participants: self.total_participants,
            claimed_participants: self.claimed_participants,
            bump: self.bump,
            address: self.address@,
            topic: self.topic@,
            active_until: self.active_until,
            questions: self.questions.deep_view(),
            results: self.results.deep_view(),
        }
    }
}

/// The custody holding of one poll's locked reward pool. Its address is
/// derived from the poll identifier; no private key exists for it.
#[derive(Debug)]
pub struct EscrowVault {
    pub address: Identity,
    pub bump: u8,
    pub token: Identity,
    pub balance: u64,
}

impl View for EscrowVault {
    type V = VaultView;

    open spec fn view(&self) -> VaultView {
        VaultView {
            address: self.address@,
            bump: self.bump,
            token: self.token@,
            balance: self.balance,
        }
    }
}

/// The optional process-wide registry record, initialized once.
#[derive(Debug)]
pub struct PollRegistry {
    pub bump: u8,
}

/// Byte-for-byte equality of two identities.
pub fn id_eq(a: &Identity, b: &Identity) -> (r: bool)
    ensures
        r == (a@ == b@),
{
    let mut i: usize = 0;
    while i < 32
        invariant
            0 <= i <= 32,
            forall|k: int| 0 <= k < i ==> a@[k] == b@[k],
        decreases 32 - i,
    {
        if a[i] != b[i] {
            return false;
        }
        i = i + 1;
    }
    proof {
        assert(a@ =~= b@);
    }
    true
}

/// Byte-for-byte equality of two byte strings.
pub fn bytes_eq(a: &Vec<u8>, b: &Vec<u8>) -> (r: bool)
    ensures
        r == (a@ == b@),
{
    if a.len() != b.len() {
        return false;
    }
    let mut i: usize = 0;
    while i < a.len()
        invariant
            0 <= i <= a.len(),
            a.len() == b.len(),
            forall|k: int| 0 <= k < i ==> a@[k] == b@[k],
        decreases a.len() - i,
    {
        if a[i] != b[i] {
            return false;
        }
        i = i + 1;
    }
    proof {
        assert(a@ =~= b@);
    }
    true
}

} // verus!
