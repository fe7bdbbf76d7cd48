//! The entry points of the contract.

use vstd::prelude::*;
use cosmwasm_std::testing::MockApi;
use cosmwasm_std::{Empty, Env, MemoryStorage, MessageInfo, Response, StdError};
use crate::error::{ContractError, ErrorKind};
use crate::layout::{
    config_key,
    contract_info_key,
    ledger_of,
    lemma_config_written,
    lemma_namespaces_fit,
    lemma_poll_written,
    lemma_version_is_off_ledger,
    poll_key,
    CONFIG_NAMESPACE,
    POLL_NAMESPACE,
};
use crate::ledger::{
    Ledger,
    Outcome,
    Stored,
    ACTION,
    INSTANTIATED,
    POLL_CREATED,
    VOTED_NO,
    VOTED_YES,
};
use crate::msg::{Choice, ExecuteMsg, GetPollResponse, InstantiateMsg, QueryMsg, QueryResponse};
use crate::state::{Config, ConfigView, SPoll};
use crate::store::{
    add_attribute,
    contract_version_bytes,
    item_load,
    item_save,
    map_has,
    map_load,
    map_may_load,
    map_save,
    new_response,
    response_attributes,
    response_extras,
    set_contract_version,
    store_entries,
    validate_address,
    written_at,
};

verus! {

/// The name under which the contract records its version.
pub const CONTRACT_NAME: &'static str = "crates.io:callumbis";

/// The version that the contract records.
pub const CONTRACT_VERSION: &'static str = "0.1.0";

/// What a call that may change the store works with.
pub struct DepsMut<'a> {
    pub storage: &'a mut MemoryStorage,
    pub api: &'a MockApi,
}

/// What a call that only reads the store works with.
pub struct Deps<'a> {
    pub storage: &'a MemoryStorage,
    pub api: &'a MockApi,
}

/// Whether a call's result is what the step says: on success a receipt whose only content
/// is the attribute `action` with the step's action, on failure an error of the step's kind.
pub open spec fn delivers(result: Result<Response<Empty>, ContractError>, outcome: Outcome) -> bool {
    match outcome {
        Outcome::Done(action) => result matches Ok(response) && response_attributes(response)
            == seq![(ACTION@, action)] && response_extras(response) == 0,
        Outcome::Failed(kind) => result matches Err(error) && error.kind() == kind,
    }
}

/// The entries after the contract's name and version were recorded.
pub open spec fn versioned(entries: Map<Seq<u8>, Seq<u8>>) -> Map<Seq<u8>, Seq<u8>> {
    entries.insert(contract_info_key(), contract_version_bytes(CONTRACT_NAME@, CONTRACT_VERSION@))
}

/// The receipt of a successful call: one attribute, `action`, and nothing else.
fn receipt(action: &str) -> (response: Response)
    ensures
        response_attributes(response) == seq![(ACTION@, action@)],
        response_extras(response) == 0,
{
    proof {
        reveal_strlit("action");
    }
    let response = add_attribute(new_response(), ACTION, action);
    assert(response_attributes(response) =~= seq![(ACTION@, action@)]);
    response
}

/// Creates a poll.
///
/// A name that has no poll gets one with both counters at zero. A name whose slot holds
/// anything fails with `DuplicatePoll`, and the store stays as it was.
pub fn execute_create_poll(deps: DepsMut, _env: Env, _info: MessageInfo, poll_name: String) -> (result:
    Result<Response, ContractError>)
    ensures
        ledger_of(*final(deps.storage)) == ledger_of(*old(deps.storage)).create_poll(
            poll_name@,
        ).after,
        delivers(result, ledger_of(*old(deps.storage)).create_poll(poll_name@).outcome),
        result is Err ==> store_entries(*final(deps.storage)) == store_entries(*old(deps.storage)),
        result is Ok ==> written_at(
            store_entries(*old(deps.storage)),
            store_entries(*final(deps.storage)),
            poll_key(poll_name@),
        ),
{
    proof {
        lemma_namespaces_fit();
    }
    if map_has(deps.storage, POLL_NAMESPACE, &poll_name) {
        return Err(ContractError::DuplicatePoll);
    }
    let my_poll = SPoll::new(poll_name.clone());
    match map_save(deps.storage, POLL_NAMESPACE, &poll_name, &my_poll) {
        Ok(()) => {},
        Err(e) => { return Err(ContractError::Std(e)); },
    }
    proof {
        lemma_poll_written(
            store_entries(*old(deps.storage)),
            store_entries(*deps.storage),
            poll_name@,
        );
    }
    Ok(receipt(POLL_CREATED))
}

/// Casts one vote on a poll that was read from the store.
///
/// The tokens `yes` and `no` each add one to their counter and name the receipt's action;
/// any other token fails with `InvalidChoice`. A counter that is at its maximum fails
/// with `CounterOverflow`.
pub fn cast_vote(poll: SPoll, choice: &str) -> (result: Result<(SPoll, &'static str), ContractError>)
    ensures
        match poll@.cast(choice@) {
            Ok(cast) => result matches Ok(voted) && voted.0@ == cast.0 && voted.1@ == cast.1,
            Err(kind) => result matches Err(error) && error.kind() == kind,
        },
{
    let mut my_poll = poll;
    match Choice::from_token(choice) {
        Some(Choice::Yes) => {
            if my_poll.yes_votes == u64::MAX {
                return Err(ContractError::CounterOverflow);
            }
            my_poll.yes_votes += 1;
            Ok((my_poll, VOTED_YES))
        },
        Some(Choice::No) => {
            if my_poll.no_votes == u64::MAX {
                return Err(ContractError::CounterOverflow);
            }
            my_poll.no_votes += 1;
            Ok((my_poll, VOTED_NO))
        },
        None => Err(ContractError::InvalidChoice),
    }
}

/// Votes on a poll.
///
/// The poll must exist, else the call fails with `PollNotFound`, whatever the token. Its
/// record must be readable. Then the vote is cast as [`cast_vote`] says, and the poll's
/// record is rewritten. A failed call leaves the store as it was.
pub fn execute_vote_poll(
    deps: DepsMut,
    _env: Env,
    _info: MessageInfo,
    poll_name: String,
    choice: String,
) -> (result: Result<Response, ContractError>)
    ensures
        ledger_of(*final(deps.storage)) == ledger_of(*old(deps.storage)).vote_poll(
            poll_name@,
            choice@,
        ).after,
        delivers(result, ledger_of(*old(deps.storage)).vote_poll(poll_name@, choice@).outcome),
        result is Err ==> store_entries(*final(deps.storage)) == store_entries(*old(deps.storage)),
        result is Ok ==> written_at(
            store_entries(*old(deps.storage)),
            store_entries(*final(deps.storage)),
            poll_key(poll_name@),
        ),
{
    proof {
        lemma_namespaces_fit();
    }
    if !map_has(deps.storage, POLL_NAMESPACE, &poll_name) {
        return Err(ContractError::PollNotFound);
    }
    let loaded = match map_load(deps.storage, POLL_NAMESPACE, &poll_name) {
        Ok(poll) => poll,
        Err(e) => { return Err(ContractError::Std(e)); },
    };
    let (my_poll, action) = match cast_vote(loaded, choice.as_str()) {
        Ok(voted) => voted,
        Err(e) => { return Err(e); },
    };
    match map_save(deps.storage, POLL_NAMESPACE, &poll_name, &my_poll) {
        Ok(()) => {},
        Err(e) => { return Err(ContractError::Std(e)); },
    }
    proof {
        lemma_poll_written(
            store_entries(*old(deps.storage)),
            store_entries(*deps.storage),
            poll_name@,
        );
    }
    Ok(receipt(action))
}

/// Writes the configuration once the administrator's address was validated.
///
/// A validated address becomes the configuration, in place of whatever the slot held. A
/// rejected address fails with `InvalidAddress` and leaves the store as it was.
pub fn install_config(storage: &mut MemoryStorage, validated: Result<String, StdError>) -> (result:
    Result<Response, ContractError>)
    ensures
        match validated {
            Ok(address) => {
                &&& written_at(store_entries(*old(storage)), store_entries(*final(storage)), config_key())
                &&& ledger_of(*final(storage)) == (Ledger {
                    config: Some(Stored::Record(ConfigView { admin_address: address@ })),
                    ..ledger_of(*old(storage))
                })
                &&& delivers(result, Outcome::Done(INSTANTIATED@))
            },
            Err(_) => {
                &&& store_entries(*final(storage)) == store_entries(*old(storage))
                &&& delivers(result, Outcome::Failed(ErrorKind::InvalidAddress))
            },
        },
{
    let validated_address = match validated {
        Ok(address) => address,
        Err(e) => { return Err(ContractError::InvalidAddress(e)); },
    };
    let config = Config { admin_address: validated_address };
    match item_save(storage, CONFIG_NAMESPACE, &config.admin_address) {
        Ok(()) => {},
        Err(e) => { return Err(ContractError::Std(e)); },
    }
    proof {
        lemma_config_written(store_entries(*old(storage)), store_entries(*storage));
    }
    Ok(receipt(INSTANTIATED))
}

/// Instantiates the contract.
///
/// The contract's name and version are recorded first, whatever follows. Then the
/// administrator's address is validated: an accepted address becomes the configuration,
/// in place of any earlier one; a rejected address fails with `InvalidAddress`.
pub fn instantiate(deps: DepsMut, _env: Env, _info: MessageInfo, msg: InstantiateMsg) -> (result:
    Result<Response, ContractError>)
    ensures
        ledger_of(*final(deps.storage)) == ledger_of(*old(deps.storage)).instantiate(
            msg.admin_address@,
        ).after,
        delivers(result, ledger_of(*old(deps.storage)).instantiate(msg.admin_address@).outcome),
        result is Err ==> store_entries(*final(deps.storage)) == versioned(
            store_entries(*old(deps.storage)),
        ),
        result is Ok ==> written_at(
            versioned(store_entries(*old(deps.storage))),
            store_entries(*final(deps.storage)),
            config_key(),
        ),
{
    match set_contract_version(deps.storage, CONTRACT_NAME, CONTRACT_VERSION) {
        Ok(()) => {},
        Err(e) => { return Err(ContractError::Std(e)); },
    }
    proof {
        lemma_version_is_off_ledger(
            store_entries(*old(deps.storage)),
            contract_version_bytes(CONTRACT_NAME@, CONTRACT_VERSION@),
        );
    }
    let validated = validate_address(deps.api, msg.admin_address.as_str());
    install_config(deps.storage, validated)
}

/// Carries out an execute message: creates a poll or votes on one.
pub fn execute(deps: DepsMut, env: Env, info: MessageInfo, msg: ExecuteMsg) -> (result: Result<
    Response,
    ContractError,
>)
    ensures
        ledger_of(*final(deps.storage)) == ledger_of(*old(deps.storage)).execute(msg@).after,
        delivers(result, ledger_of(*old(deps.storage)).execute(msg@).outcome),
        result is Err ==> store_entries(*final(deps.storage)) == store_entries(*old(deps.storage)),
        result is Ok ==> written_at(
            store_entries(*old(deps.storage)),
            store_entries(*final(deps.storage)),
            poll_key(msg@.poll_name()),
        ),
{
    match msg {
        ExecuteMsg::CreatePollMsg { poll_name } => execute_create_poll(deps, env, info, poll_name),
        ExecuteMsg::VotePollMsg { poll_name, choice } => execute_vote_poll(
            deps,
            env,
            info,
            poll_name,
            choice,
        ),
    }
}

/// Looks a poll up. A name without a poll is no failure: the answer then holds no poll.
/// The call fails only where the slot of that name holds bytes that are no poll record.
pub fn query_get_poll(deps: Deps, poll_name: String) -> (result: Result<GetPollResponse, StdError>)
    ensures
        match ledger_of(*deps.storage).query_poll(poll_name@) {
            Ok(poll) => result matches Ok(response) && response@ == poll,
            Err(_) => result is Err,
        },
{
    proof {
        lemma_namespaces_fit();
    }
    let my_poll_option = match map_may_load(deps.storage, POLL_NAMESPACE, &poll_name) {
        Ok(found) => found,
        Err(e) => { return Err(e); },
    };
    Ok(GetPollResponse { poll: my_poll_option })
}

/// Reads the configuration. The call fails where the contract was never instantiated,
/// and where the configuration's slot holds bytes that are no configuration.
pub fn query_get_config(deps: Deps) -> (result: Result<Config, StdError>)
    ensures
        match ledger_of(*deps.storage).query_config() {
            Ok(config) => result matches Ok(found) && found@ == config,
            Err(_) => result is Err,
        },
{
    match item_load(deps.storage, CONFIG_NAMESPACE) {
        Ok(admin_address) => Ok(Config { admin_address }),
        Err(e) => Err(e),
    }
}

/// Answers a query message.
pub fn query(deps: Deps, _env: Env, msg: QueryMsg) -> (result: Result<QueryResponse, StdError>)
    ensures
        match ledger_of(*deps.storage).query(msg@) {
            Ok(answer) => result matches Ok(response) && response@ == answer,
            Err(_) => result is Err,
        },
{
    match msg {
        QueryMsg::GetPoll { poll_name } => match query_get_poll(deps, poll_name) {
            Ok(response) => Ok(QueryResponse::Poll(response)),
            Err(e) => Err(e),
        },
        QueryMsg::GetConfig {} => match query_get_config(deps) {
            Ok(config) => Ok(QueryResponse::Config(config)),
            Err(e) => Err(e),
        },
    }
}

} // verus!
