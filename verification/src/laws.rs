//! What holds of the contract over several calls.
//!
//! Each law is stated over the steps of [`crate::ledger::Ledger`], which the entry points
//! are proved to follow on the ledger that the store holds.

use vstd::prelude::*;
use crate::error::ErrorKind;
use crate::layout::ledger_of_entries;
use crate::ledger::{Ledger, Outcome, Stored, INSTANTIATED, POLL_CREATED};
use crate::msg::{Answer, Choice, ExecuteMsgView, QueryMsgView};
use crate::state::{ConfigView, PollView};
use crate::store::address_accepted;

verus! {

/// How many of the tokens stand for the given vote.
pub open spec fn tally(choices: Seq<Seq<char>>, choice: Choice) -> nat
    decreases choices.len(),
{
    if choices.len() == 0 {
        0
    } else {
        let rest = tally(choices.drop_last(), choice);
        if Choice::decode(choices.last()) == Some(choice) {
            rest + 1
        } else {
            rest
        }
    }
}

impl Ledger {
    /// The ledger after one vote on a poll for each token, in their order.
    pub open spec fn vote_all(self, poll_name: Seq<char>, choices: Seq<Seq<char>>) -> Ledger
        decreases choices.len(),
    {
        if choices.len() == 0 {
            self
        } else {
            self.vote_all(poll_name, choices.drop_last()).vote_poll(
                poll_name,
                choices.last(),
            ).after
        }
    }
}

impl Ledger {
    /// The ledger after a sequence of execute messages, in their order.
    pub open spec fn run(self, msgs: Seq<ExecuteMsgView>) -> Ledger
        decreases msgs.len(),
    {
        if msgs.len() == 0 {
            self
        } else {
            self.run(msgs.drop_last()).execute(msgs.last()).after
        }
    }
}

/// A store without entries holds the ledger without configuration and without polls.
pub proof fn law_empty_store_holds_nothing()
    ensures
        ledger_of_entries(Map::empty()) == (Ledger { config: None, polls: Map::empty() }),
{
    assert(ledger_of_entries(Map::empty()).polls =~= Map::<Seq<char>, Stored<PollView>>::empty());
}

/// Instantiation with an accepted address always hands back the same receipt and makes
/// that address the configuration, whatever the configuration was before.
pub proof fn law_instantiation_overwrites(ledger: Ledger, admin_address: Seq<char>)
    ensures
        address_accepted(admin_address) ==> {
            &&& ledger.instantiate(admin_address).outcome == Outcome::Done(INSTANTIATED@)
            &&& ledger.instantiate(admin_address).after.query_config() == Ok::<
                ConfigView,
                ErrorKind,
            >(ConfigView { admin_address })
        },
        !address_accepted(admin_address) ==> ledger.instantiate(admin_address) == ledger.refuse(
            ErrorKind::InvalidAddress,
        ),
        ledger.instantiate(admin_address).after.polls == ledger.polls,
{
}

/// After two instantiations with accepted addresses the configuration is the second
/// address: nothing of the first instantiation survives.
pub proof fn law_last_instantiation_wins(ledger: Ledger, first: Seq<char>, second: Seq<char>)
    ensures
        address_accepted(first) && address_accepted(second) ==> {
            &&& ledger.instantiate(first).after.instantiate(second).outcome
                == ledger.instantiate(first).outcome
            &&& ledger.instantiate(first).after.instantiate(second).after.query_config() == Ok::<
                ConfigView,
                ErrorKind,
            >(ConfigView { admin_address: second })
            &&& ledger.instantiate(first).after.instantiate(second).after == ledger.instantiate(
                second,
            ).after
        },
{
}

/// Creating a poll twice in a row: the second call fails with `DuplicatePoll` and changes
/// nothing. Where the name was free, the first call succeeds, and after both calls the
/// poll is as the first call made it, with both counters at zero.
pub proof fn law_second_creation_is_refused(ledger: Ledger, poll_name: Seq<char>)
    ensures
        ledger.create_poll(poll_name).after.create_poll(poll_name) == ledger.create_poll(
            poll_name,
        ).after.refuse(ErrorKind::DuplicatePoll),
        !ledger.polls.contains_key(poll_name) ==> {
            &&& ledger.create_poll(poll_name).outcome == Outcome::Done(POLL_CREATED@)
            &&& ledger.create_poll(poll_name).after.create_poll(poll_name).after.query_poll(
                poll_name,
            ) == Ok::<Option<PollView>, ErrorKind>(Some(PollView::fresh(poll_name)))
        },
        ledger.polls.contains_key(poll_name) ==> ledger.create_poll(poll_name) == ledger.refuse(
            ErrorKind::DuplicatePoll,
        ),
{
}

/// A vote on a name that has no poll fails with `PollNotFound`, whatever the token, and
/// creates no poll.
pub proof fn law_vote_needs_a_poll(ledger: Ledger, poll_name: Seq<char>, choice: Seq<char>)
    requires
        !ledger.polls.contains_key(poll_name),
    ensures
        ledger.vote_poll(poll_name, choice) == ledger.refuse(ErrorKind::PollNotFound),
        !ledger.vote_poll(poll_name, choice).after.polls.contains_key(poll_name),
{
}

/// A vote on a readable poll with a token that is neither `yes` nor `no` fails with
/// `InvalidChoice` and changes nothing.
pub proof fn law_other_tokens_are_refused(ledger: Ledger, poll_name: Seq<char>, choice: Seq<char>)
    requires
        ledger.polls.contains_key(poll_name),
        ledger.polls[poll_name] is Record,
        Choice::decode(choice) is None,
    ensures
        ledger.vote_poll(poll_name, choice) == ledger.refuse(ErrorKind::InvalidChoice),
{
}

/// After any sequence of votes on a readable poll, its yes counter has grown by the number
/// of yes votes and its no counter by the number of no votes, whatever their order, and
/// nothing else in the ledger has changed. The counters must have room for the votes.
pub proof fn law_votes_are_counted(
    ledger: Ledger,
    poll_name: Seq<char>,
    poll: PollView,
    choices: Seq<Seq<char>>,
)
    requires
        ledger.polls.contains_key(poll_name),
        ledger.polls[poll_name] == Stored::Record(poll),
        poll.yes_votes + tally(choices, Choice::Yes) <= u64::MAX,
        poll.no_votes + tally(choices, Choice::No) <= u64::MAX,
    ensures
        ledger.vote_all(poll_name, choices) == (Ledger {
            polls: ledger.polls.insert(
                poll_name,
                Stored::Record(
                    PollView {
                        yes_votes: (poll.yes_votes + tally(choices, Choice::Yes)) as u64,
                        no_votes: (poll.no_votes + tally(choices, Choice::No)) as u64,
                        ..poll
                    },
                ),
            ),
            ..ledger
        }),
    decreases choices.len(),
{
    if choices.len() == 0 {
        assert(ledger.polls.insert(poll_name, Stored::Record(poll)) =~= ledger.polls);
    } else {
        let rest = choices.drop_last();
        law_votes_are_counted(ledger, poll_name, poll, rest);
        let before = ledger.vote_all(poll_name, rest);
        let counted = PollView {
            yes_votes: (poll.yes_votes + tally(rest, Choice::Yes)) as u64,
            no_votes: (poll.no_votes + tally(rest, Choice::No)) as u64,
            ..poll
        };
        assert(before.polls[poll_name] == Stored::Record(counted));
        let after = before.vote_poll(poll_name, choices.last()).after;
        let expected = PollView {
            yes_votes: (poll.yes_votes + tally(choices, Choice::Yes)) as u64,
            no_votes: (poll.no_votes + tally(choices, Choice::No)) as u64,
            ..poll
        };
        assert(after.polls =~= ledger.polls.insert(poll_name, Stored::Record(expected)));
    }
}

/// A poll that was just created and then voted on `k` times with yes and `m` times with
/// no, in any order, is answered with exactly `k` yes votes and `m` no votes.
pub proof fn law_fresh_poll_counts_from_zero(
    ledger: Ledger,
    poll_name: Seq<char>,
    choices: Seq<Seq<char>>,
)
    requires
        !ledger.polls.contains_key(poll_name),
        tally(choices, Choice::Yes) <= u64::MAX,
        tally(choices, Choice::No) <= u64::MAX,
    ensures
        ledger.create_poll(poll_name).after.vote_all(poll_name, choices).query_poll(poll_name)
            == Ok::<Option<PollView>, ErrorKind>(
            Some(
                PollView {
                    poll_name,
                    yes_votes: tally(choices, Choice::Yes) as u64,
                    no_votes: tally(choices, Choice::No) as u64,
                },
            ),
        ),
{
    let created = ledger.create_poll(poll_name).after;
    law_votes_are_counted(created, poll_name, PollView::fresh(poll_name), choices);
}

/// Two sequences of votes with the same number of yes votes and the same number of no
/// votes leave the same ledger.
pub proof fn law_vote_order_is_irrelevant(
    ledger: Ledger,
    poll_name: Seq<char>,
    poll: PollView,
    one: Seq<Seq<char>>,
    other: Seq<Seq<char>>,
)
    requires
        ledger.polls.contains_key(poll_name),
        ledger.polls[poll_name] == Stored::Record(poll),
        tally(one, Choice::Yes) == tally(other, Choice::Yes),
        tally(one, Choice::No) == tally(other, Choice::No),
        poll.yes_votes + tally(one, Choice::Yes) <= u64::MAX,
        poll.no_votes + tally(one, Choice::No) <= u64::MAX,
    ensures
        ledger.vote_all(poll_name, one) == ledger.vote_all(poll_name, other),
{
    law_votes_are_counted(ledger, poll_name, poll, one);
    law_votes_are_counted(ledger, poll_name, poll, other);
}

/// Asking for a poll under a name that has none is no failure: the answer holds no poll.
pub proof fn law_missing_poll_is_no_failure(ledger: Ledger, poll_name: Seq<char>)
    requires
        !ledger.polls.contains_key(poll_name),
    ensures
        ledger.query_poll(poll_name) == Ok::<Option<PollView>, ErrorKind>(None),
        ledger.query(QueryMsgView::GetPoll { poll_name }) == Ok::<Answer, ErrorKind>(
            Answer::Poll(None),
        ),
{
}

/// An execute message leaves every poll but the one it names as it was.
pub proof fn law_execute_touches_one_poll(ledger: Ledger, msg: ExecuteMsgView, other: Seq<char>)
    requires
        other != msg.poll_name(),
    ensures
        ledger.execute(msg).after.polls.contains_key(other) == ledger.polls.contains_key(other),
        ledger.execute(msg).after.polls[other] == ledger.polls[other],
        ledger.execute(msg).after.query_poll(other) == ledger.query_poll(other),
{
}

/// No execute message deletes a poll, lowers a counter or touches the configuration, and
/// a message that fails changes nothing at all.
pub proof fn law_polls_only_grow(ledger: Ledger, msg: ExecuteMsgView, poll_name: Seq<char>)
    requires
        ledger.polls.contains_key(poll_name),
    ensures
        ledger.execute(msg).after.config == ledger.config,
        ledger.execute(msg).after.polls.contains_key(poll_name),
        ledger.execute(msg).outcome is Failed ==> ledger.execute(msg).after == ledger,
        ledger.polls[poll_name] matches Stored::Record(before) ==> {
            &&& ledger.execute(msg).after.polls[poll_name] matches Stored::Record(after)
            &&& after.poll_name == before.poll_name
            &&& after.yes_votes >= before.yes_votes
            &&& after.no_votes >= before.no_votes
        },
{
}

/// Whatever execute messages arrive, a poll that exists stays, under its name and with
/// counters that are no lower than before, and the configuration stays as it was.
pub proof fn law_polls_are_never_lost(ledger: Ledger, msgs: Seq<ExecuteMsgView>, poll_name: Seq<char>)
    requires
        ledger.polls.contains_key(poll_name),
    ensures
        ledger.run(msgs).config == ledger.config,
        ledger.run(msgs).polls.contains_key(poll_name),
        ledger.polls[poll_name] matches Stored::Record(before) ==> {
            &&& ledger.run(msgs).polls[poll_name] matches Stored::Record(after)
            &&& after.poll_name == before.poll_name
            &&& after.yes_votes >= before.yes_votes
            &&& after.no_votes >= before.no_votes
        },
    decreases msgs.len(),
{
    if msgs.len() > 0 {
        law_polls_are_never_lost(ledger, msgs.drop_last(), poll_name);
        law_polls_only_grow(ledger.run(msgs.drop_last()), msgs.last(), poll_name);
    }
}

/// A poll comes from its creation alone: as long as no message creates a poll of some
/// name, none exists under it, votes on it fail, and asking for it is answered with no
/// poll and without failure.
pub proof fn law_never_created_is_never_found(
    ledger: Ledger,
    msgs: Seq<ExecuteMsgView>,
    poll_name: Seq<char>,
)
    requires
        !ledger.polls.contains_key(poll_name),
        forall|i: int|
            0 <= i < msgs.len() ==> #[trigger] msgs[i] != (ExecuteMsgView::CreatePoll { poll_name }),
    ensures
        !ledger.run(msgs).polls.contains_key(poll_name),
        ledger.run(msgs).query_poll(poll_name) == Ok::<Option<PollView>, ErrorKind>(None),
    decreases msgs.len(),
{
    if msgs.len() > 0 {
        let earlier = msgs.drop_last();
        assert forall|i: int| 0 <= i < earlier.len() implies #[trigger] earlier[i] != (
        ExecuteMsgView::CreatePoll { poll_name }) by {
            assert(earlier[i] == msgs[i]);
        }
        law_never_created_is_never_found(ledger, earlier, poll_name);
        assert(msgs.last() == msgs[msgs.len() - 1]);
    }
}

} // verus!
