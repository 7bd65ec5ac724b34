use vstd::prelude::*;

verus! {

/// Rejection reasons for the poll operations. Every failed operation aborts
/// whole: the caller observes exactly one of these and no state change.
#[derive(Clone, Copy, Debug, PartialEq, Eq, Structural)]
pub enum ErrorCode {
    /// Poll creation collides with an existing poll id.
    DuplicatePoll,
    /// A key or stored field exceeds its maximum encoded length.
    AddressDerivationError,
    /// The referenced poll does not exist.
    PollNotFound,
    /// A vote was attempted on a closed poll.
    PollInactive,
    /// The vote option is not among the poll's declared options.
    InvalidOption,
    /// A vote record already exists for this (poll, voter) pair.
    DuplicateVote,
    /// The caller is not the poll's creator.
    Unauthorized,
}

impl ErrorCode {
    /// Human-readable description of the rejection.
    pub fn describe(&self) -> (r: &'static str)
        ensures
            r@ =~= match self {
                ErrorCode::DuplicatePoll => "a poll with this id already exists"@,
                ErrorCode::AddressDerivationError => "a key field exceeds its maximum length"@,
                ErrorCode::PollNotFound => "poll not found"@,
                ErrorCode::PollInactive => "poll is not active"@,
                ErrorCode::InvalidOption => "invalid vote option"@,
                ErrorCode::DuplicateVote => "this voter has already voted on this poll"@,
                ErrorCode::Unauthorized => "unauthorized action"@,
            },
    {
        match self {
            ErrorCode::DuplicatePoll => "a poll with this id already exists",
            ErrorCode::AddressDerivationError => "a key field exceeds its maximum length",
            ErrorCode::PollNotFound => "poll not found",
            ErrorCode::PollInactive => "poll is not active",
            ErrorCode::InvalidOption => "invalid vote option",
            ErrorCode::DuplicateVote => "this voter has already voted on this poll",
            ErrorCode::Unauthorized => "unauthorized action",
        }
    }
}

} // verus!
