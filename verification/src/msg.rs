//! The messages the contract takes and the answers it gives.

use vstd::prelude::*;
use crate::state::{Config, ConfigView, PollView, SPoll};

verus! {

/// Asks for a contract with the given administrator.
#[derive(Clone, Debug, PartialEq)]
pub struct InstantiateMsg {
    pub admin_address: String,
}

/// Asks for a change to the polls.
#[derive(Clone, Debug, PartialEq)]
pub enum ExecuteMsg {
    CreatePollMsg { poll_name: String },
    VotePollMsg { poll_name: String, choice: String },
}

/// What an [`ExecuteMsg`] says.
pub enum ExecuteMsgView {
    CreatePoll { poll_name: Seq<char> },
    VotePoll { poll_name: Seq<char>, choice: Seq<char> },
}

impl ExecuteMsgView {
    /// The name of the poll that the message is about.
    pub open spec fn poll_name(self) -> Seq<char> {
        match self {
            ExecuteMsgView::CreatePoll { poll_name } => poll_name,
            ExecuteMsgView::VotePoll { poll_name, .. } => poll_name,
        }
    }
}

impl View for ExecuteMsg {
    type V = ExecuteMsgView;

    open spec fn view(&self) -> ExecuteMsgView {
        match self {
            ExecuteMsg::CreatePollMsg { poll_name } => ExecuteMsgView::CreatePoll {
                poll_name: poll_name@,
            },
            ExecuteMsg::VotePollMsg { poll_name, choice } => ExecuteMsgView::VotePoll {
                poll_name: poll_name@,
                choice: choice@,
            },
        }
    }
}

/// Asks what the contract holds.
#[derive(Clone, Debug, PartialEq)]
pub enum QueryMsg {
    GetPoll { poll_name: String },
    GetConfig {},
}

/// What a [`QueryMsg`] says.
pub enum QueryMsgView {
    GetPoll { poll_name: Seq<char> },
    GetConfig,
}

impl View for QueryMsg {
    type V = QueryMsgView;

    open spec fn view(&self) -> QueryMsgView {
        match self {
            QueryMsg::GetPoll { poll_name } => QueryMsgView::GetPoll { poll_name: poll_name@ },
            QueryMsg::GetConfig {} => QueryMsgView::GetConfig,
        }
    }
}

/// Asks for a migration. The contract has none to do.
#[derive(Clone, Debug, PartialEq)]
pub struct MigrateMsg {}

/// The answer to [`QueryMsg::GetPoll`]: the poll, or nothing where no poll has that name.
#[derive(Clone, Debug, PartialEq)]
pub struct GetPollResponse {
    pub poll: Option<SPoll>,
}

impl View for GetPollResponse {
    type V = Option<PollView>;

    open spec fn view(&self) -> Option<PollView> {
        match self.poll {
            Some(poll) => Some(poll@),
            None => None,
        }
    }
}

/// The answer to a [`QueryMsg`].
#[derive(Clone, Debug, PartialEq)]
pub enum QueryResponse {
    Poll(GetPollResponse),
    Config(Config),
}

/// What a [`QueryResponse`] says.
pub enum Answer {
    Poll(Option<PollView>),
    Config(ConfigView),
}

impl View for QueryResponse {
    type V = Answer;

    open spec fn view(&self) -> Answer {
        match self {
            QueryResponse::Poll(response) => Answer::Poll(response@),
            QueryResponse::Config(config) => Answer::Config(config@),
        }
    }
}

/// The token of a yes vote.
pub const YES: &'static str = "yes";

/// The token of a no vote.
pub const NO: &'static str = "no";

/// A vote.
#[derive(Clone, Copy, Debug, PartialEq, Eq, Structural)]
pub enum Choice {
    Yes,
    No,
}

impl Choice {
    /// The vote that a token stands for. Only the exact tokens [`YES`] and [`NO`] stand for one.
    pub open spec fn decode(token: Seq<char>) -> Option<Choice> {
        if token == YES@ {
            Some(Choice::Yes)
        } else if token == NO@ {
            Some(Choice::No)
        } else {
            None
        }
    }

    /// Reads a vote from its token.
    pub fn from_token(token: &str) -> (choice: Option<Choice>)
        ensures
            choice == Choice::decode(token@),
    {
        let given = token.to_owned();
        if given == YES.to_owned() {
            Some(Choice::Yes)
        } else if given == NO.to_owned() {
            Some(Choice::No)
        } else {
            None
        }
    }
}

} // verus!
