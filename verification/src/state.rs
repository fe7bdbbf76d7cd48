//! The records the contract keeps.

use vstd::prelude::*;

verus! {

/// The contract's configuration: a single record, written when the contract is instantiated.
#[derive(Clone, Debug, PartialEq)]
pub struct Config {
    /// The validated address of the administrator.
    pub admin_address: String,
}

/// What a [`Config`] says.
pub struct ConfigView {
    pub admin_address: Seq<char>,
}

impl View for Config {
    type V = ConfigView;

    open spec fn view(&self) -> ConfigView {
        ConfigView { admin_address: self.admin_address@ }
    }
}

/// A poll with its two counters.
#[derive(Clone, Debug, PartialEq)]
pub struct SPoll {
    /// The name under which the poll is kept.
    pub poll_name: String,
    pub yes_votes: u64,
    pub no_votes: u64,
}

/// What an [`SPoll`] says.
pub struct PollView {
    pub poll_name: Seq<char>,
    pub yes_votes: u64,
    pub no_votes: u64,
}

impl View for SPoll {
    type V = PollView;

    open spec fn view(&self) -> PollView {
        PollView {
            poll_name: self.poll_name@,
            yes_votes: self.yes_votes,
            no_votes: self.no_votes,
        }
    }
}

impl PollView {
    /// The poll as it is right after its creation.
    pub open spec fn fresh(name: Seq<char>) -> PollView {
        PollView { poll_name: name, yes_votes: 0, no_votes: 0 }
    }

    /// The poll's three fields in the order in which a record lists them.
    pub open spec fn fields(self) -> (Seq<char>, u64, u64) {
        (self.poll_name, self.yes_votes, self.no_votes)
    }

    /// The poll that a record's three fields describe.
    pub open spec fn from_fields(fields: (Seq<char>, u64, u64)) -> PollView {
        PollView { poll_name: fields.0, yes_votes: fields.1, no_votes: fields.2 }
    }
}

impl SPoll {
    /// A poll named `poll_name` that nobody has voted on.
    pub fn new(poll_name: String) -> (poll: SPoll)
        ensures
            poll@ == PollView::fresh(poll_name@),
    {
        SPoll { poll_name, yes_votes: 0, no_votes: 0 }
    }
}

} // verus!
