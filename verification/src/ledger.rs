//! The ledger of the contract, and how each call changes it.
//!
//! Everything here is mathematics: a ledger is a configuration and a map of polls, a step
//! takes a ledger to the next one and says what the caller gets back. The entry points in
//! [`crate::contract`] are proved to move the store exactly as the steps say.

use vstd::prelude::*;
use crate::error::ErrorKind;
use crate::msg::{Answer, Choice, ExecuteMsgView, QueryMsgView};
use crate::state::{ConfigView, PollView};
use crate::store::address_accepted;

verus! {

/// The key of the one attribute that a receipt carries.
pub const ACTION: &'static str = "action";

/// The action of a successful instantiation.
pub const INSTANTIATED: &'static str = "instantiate";

/// The action of a successful poll creation.
pub const POLL_CREATED: &'static str = "poll_created";

/// The action of a successful yes vote.
pub const VOTED_YES: &'static str = "voted_yes";

/// The action of a successful no vote.
pub const VOTED_NO: &'static str = "poll_voted";

/// What a slot of the store holds: a record, or bytes that do not read as one.
pub enum Stored<T> {
    Record(T),
    Unreadable,
}

/// The state of the contract: its configuration, if any was written, and its polls by name.
#[verifier::ext_equal]
pub struct Ledger {
    pub config: Option<Stored<ConfigView>>,
    pub polls: Map<Seq<char>, Stored<PollView>>,
}

/// What a call hands back: a receipt with one action, or a failure.
pub enum Outcome {
    Done(Seq<char>),
    Failed(ErrorKind),
}

/// A call's effect: the ledger after it and what it hands back.
pub struct Step {
    pub after: Ledger,
    pub outcome: Outcome,
}

impl PollView {
    /// One vote on the poll: the poll afterwards and the action of the receipt. The token
    /// must stand for a vote, and the vote's counter must have room for it.
    pub open spec fn cast(self, choice: Seq<char>) -> Result<(PollView, Seq<char>), ErrorKind> {
        match Choice::decode(choice) {
            None => Err(ErrorKind::InvalidChoice),
            Some(Choice::Yes) => if self.yes_votes == u64::MAX {
                Err(ErrorKind::CounterOverflow)
            } else {
                Ok((PollView { yes_votes: (self.yes_votes + 1) as u64, ..self }, VOTED_YES@))
            },
            Some(Choice::No) => if self.no_votes == u64::MAX {
                Err(ErrorKind::CounterOverflow)
            } else {
                Ok((PollView { no_votes: (self.no_votes + 1) as u64, ..self }, VOTED_NO@))
            },
        }
    }
}

impl Ledger {
    /// The step that leaves the ledger as it is and fails.
    pub open spec fn refuse(self, kind: ErrorKind) -> Step {
        Step { after: self, outcome: Outcome::Failed(kind) }
    }

    /// The ledger with one poll written.
    pub open spec fn with_poll(self, poll: PollView) -> Ledger {
        Ledger { polls: self.polls.insert(poll.poll_name, Stored::Record(poll)), ..self }
    }

    /// Instantiation: an accepted address replaces the configuration, whatever it was.
    pub open spec fn instantiate(self, admin_address: Seq<char>) -> Step {
        if address_accepted(admin_address) {
            Step {
                after: Ledger {
                    config: Some(Stored::Record(ConfigView { admin_address })),
                    ..self
                },
                outcome: Outcome::Done(INSTANTIATED@),
            }
        } else {
            self.refuse(ErrorKind::InvalidAddress)
        }
    }

    /// Creation of a poll: a new name gets a poll with both counters at zero.
    pub open spec fn create_poll(self, poll_name: Seq<char>) -> Step {
        if self.polls.contains_key(poll_name) {
            self.refuse(ErrorKind::DuplicatePoll)
        } else {
            Step {
                after: self.with_poll(PollView::fresh(poll_name)),
                outcome: Outcome::Done(POLL_CREATED@),
            }
        }
    }

    /// A vote: the poll's existence is checked first, then its record is read, then the
    /// vote is cast on it.
    pub open spec fn vote_poll(self, poll_name: Seq<char>, choice: Seq<char>) -> Step {
        if !self.polls.contains_key(poll_name) {
            self.refuse(ErrorKind::PollNotFound)
        } else {
            match self.polls[poll_name] {
                Stored::Unreadable => self.refuse(ErrorKind::Store),
                Stored::Record(poll) => match poll.cast(choice) {
                    Ok(cast) => Step {
                        after: Ledger {
                            polls: self.polls.insert(poll_name, Stored::Record(cast.0)),
                            ..self
                        },
                        outcome: Outcome::Done(cast.1),
                    },
                    Err(kind) => self.refuse(kind),
                },
            }
        }
    }

    /// The step of an execute message.
    pub open spec fn execute(self, msg: ExecuteMsgView) -> Step {
        match msg {
            ExecuteMsgView::CreatePoll { poll_name } => self.create_poll(poll_name),
            ExecuteMsgView::VotePoll { poll_name, choice } => self.vote_poll(poll_name, choice),
        }
    }

    /// The poll of that name: nothing where there is none, a failure where its record
    /// cannot be read.
    pub open spec fn query_poll(self, poll_name: Seq<char>) -> Result<Option<PollView>, ErrorKind> {
        if !self.polls.contains_key(poll_name) {
            Ok(None)
        } else {
            match self.polls[poll_name] {
                Stored::Record(poll) => Ok(Some(poll)),
                Stored::Unreadable => Err(ErrorKind::Store),
            }
        }
    }

    /// The configuration: a failure where none was written or where it cannot be read.
    pub open spec fn query_config(self) -> Result<ConfigView, ErrorKind> {
        match self.config {
            Some(Stored::Record(config)) => Ok(config),
            _ => Err(ErrorKind::Store),
        }
    }

    /// The answer to a query message.
    pub open spec fn query(self, msg: QueryMsgView) -> Result<Answer, ErrorKind> {
        match msg {
            QueryMsgView::GetPoll { poll_name } => match self.query_poll(poll_name) {
                Ok(poll) => Ok(Answer::Poll(poll)),
                Err(kind) => Err(kind),
            },
            QueryMsgView::GetConfig => match self.query_config() {
                Ok(config) => Ok(Answer::Config(config)),
                Err(kind) => Err(kind),
            },
        }
    }
}

} // verus!
