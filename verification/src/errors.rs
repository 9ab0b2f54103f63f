use vstd::prelude::*;

verus! {

/// Every failing precondition aborts the whole operation with one of these
/// kinds, so callers can always tell exactly which check refused the request.
#[derive(Clone, Copy, Debug, PartialEq, Eq, Structural)]
pub enum ErrorCode {
    /// The poll identifier is oversized, does not match the record, or the
    /// submitted answer count does not match the configured question count.
    InvalidPollId,
    /// Every reward has already been paid out.
    AllRewardsClaimed,
    /// The vault no longer covers a single reward.
    InsufficientFunds,
    /// The caller is not the authority the operation demands.
    Unauthorized,
    /// The total reward pool would overflow the counter width.
    CalculationOverflow,
    /// The poll's deadline has passed.
    PollExpired,
    /// The submitting identity already has a recorded result.
    AlreadyParticipated,
    /// No recorded result exists for the claiming identity.
    NoResultsFound,
    /// The identity's reward was already paid.
    AlreadyClaimed,
    /// A record would not fit in the storage reserved for it.
    AccountTooLarge,
    /// More questions than a poll may hold.
    TooManyQuestions,
    /// More options in one question than allowed.
    TooManyOptions,
    /// An option string longer than allowed.
    OptionStringTooLong,
    /// A topic string longer than allowed.
    TopicTooLong,
    /// Every result slot is already filled.
    AllResultsRecorded,
}

} // verus!
