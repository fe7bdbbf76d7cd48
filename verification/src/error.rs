//! Why a call failed.

use vstd::prelude::*;
use cosmwasm_std::StdError;
use crate::store::std_error_text;

verus! {

/// The failures of the contract, without what the store or the validator said about them.
#[derive(Clone, Copy, Debug, PartialEq, Eq, Structural)]
pub enum ErrorKind {
    /// The store could not hand out a record: it holds none, or bytes that are none.
    Store,
    /// The administrator's address did not pass validation.
    InvalidAddress,
    /// A poll of that name exists already.
    DuplicatePoll,
    /// No poll of that name exists.
    PollNotFound,
    /// The vote was neither `yes` nor `no`.
    InvalidChoice,
    /// The counter that the vote goes to is at its maximum.
    CounterOverflow,
}

/// A failed call.
#[derive(Debug)]
pub enum ContractError {
    Std(StdError),
    InvalidAddress(StdError),
    DuplicatePoll,
    PollNotFound,
    InvalidChoice,
    CounterOverflow,
}

pub const DUPLICATE_POLL_MESSAGE: &'static str = "Poll already created";

pub const POLL_NOT_FOUND_MESSAGE: &'static str = "Voting on a non-existent poll";

pub const INVALID_CHOICE_MESSAGE: &'static str = "invalid option when voting";

pub const COUNTER_OVERFLOW_MESSAGE: &'static str = "vote counter is full";

impl ContractError {
    pub open spec fn spec_kind(&self) -> ErrorKind {
        match self {
            ContractError::Std(_) => ErrorKind::Store,
            ContractError::InvalidAddress(_) => ErrorKind::InvalidAddress,
            ContractError::DuplicatePoll => ErrorKind::DuplicatePoll,
            ContractError::PollNotFound => ErrorKind::PollNotFound,
            ContractError::InvalidChoice => ErrorKind::InvalidChoice,
            ContractError::CounterOverflow => ErrorKind::CounterOverflow,
        }
    }

    /// Which failure this is.
    #[verifier::when_used_as_spec(spec_kind)]
    pub fn kind(&self) -> (kind: ErrorKind)
        ensures
            kind == self.spec_kind(),
    {
        match self {
            ContractError::Std(_) => ErrorKind::Store,
            ContractError::InvalidAddress(_) => ErrorKind::InvalidAddress,
            ContractError::DuplicatePoll => ErrorKind::DuplicatePoll,
            ContractError::PollNotFound => ErrorKind::PollNotFound,
            ContractError::InvalidChoice => ErrorKind::InvalidChoice,
            ContractError::CounterOverflow => ErrorKind::CounterOverflow,
        }
    }

    /// The text shown to the caller. The contract's own failures have a fixed text;
    /// a failure of the store or of the validator is shown in its own words.
    pub fn message(&self) -> (text: String)
        ensures
            self.kind() == ErrorKind::DuplicatePoll ==> text@ == DUPLICATE_POLL_MESSAGE@,
            self.kind() == ErrorKind::PollNotFound ==> text@ == POLL_NOT_FOUND_MESSAGE@,
            self.kind() == ErrorKind::InvalidChoice ==> text@ == INVALID_CHOICE_MESSAGE@,
            self.kind() == ErrorKind::CounterOverflow ==> text@ == COUNTER_OVERFLOW_MESSAGE@,
    {
        match self {
            ContractError::Std(e) => std_error_text(e),
            ContractError::InvalidAddress(e) => std_error_text(e),
            ContractError::DuplicatePoll => DUPLICATE_POLL_MESSAGE.to_owned(),
            ContractError::PollNotFound => POLL_NOT_FOUND_MESSAGE.to_owned(),
            ContractError::InvalidChoice => INVALID_CHOICE_MESSAGE.to_owned(),
            ContractError::CounterOverflow => COUNTER_OVERFLOW_MESSAGE.to_owned(),
        }
    }
}

} // verus!
