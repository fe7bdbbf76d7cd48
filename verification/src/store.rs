//! The byte store and the other outside types, with what is taken on trust about them.
//!
//! Nothing in this file is proved. Each function calls one outside function and
//! states what that function's source shows; the names without a body stand for
//! results that are too long to write out.

use vstd::prelude::*;
use vstd::utf8::*;
use cosmwasm_std::testing::MockApi;
use cosmwasm_std::{Empty, Env, MemoryStorage, MessageInfo, Response, StdError};
use crate::keys::{item_key, map_key, MAX_NAMESPACE_LEN};
use crate::state::SPoll;

verus! {

/// `cosmwasm_std::MemoryStorage`: a byte store in memory.
#[verifier::external_type_specification]
#[verifier::external_body]
pub struct ExMemoryStorage(MemoryStorage);

/// `cosmwasm_std::testing::MockApi`: the address validator that comes with the store.
#[verifier::external_type_specification]
#[verifier::external_body]
pub struct ExMockApi(MockApi);

/// `cosmwasm_std::StdError`: what the store or the validator says when it fails.
#[verifier::external_type_specification]
#[verifier::external_body]
pub struct ExStdError(StdError);

/// `cosmwasm_std::Env`: the block and contract a call runs in. Carried, never read.
#[verifier::external_type_specification]
#[verifier::external_body]
pub struct ExEnv(Env);

/// `cosmwasm_std::MessageInfo`: the sender and funds of a call. Carried, never read.
#[verifier::external_type_specification]
#[verifier::external_body]
pub struct ExMessageInfo(MessageInfo);

/// `cosmwasm_std::Response`: the receipt of a successful call.
#[verifier::external_type_specification]
#[verifier::external_body]
#[verifier::reject_recursive_types(T)]
pub struct ExResponse<T>(Response<T>);

/// `cosmwasm_std::Empty`: the message type of a receipt that carries no custom messages.
#[verifier::external_type_specification]
#[verifier::external_body]
pub struct ExEmpty(Empty);

/// The entries of a `MemoryStorage`: the bytes stored under each key.
pub uninterp spec fn store_entries(store: MemoryStorage) -> Map<Seq<u8>, Seq<u8>>;

/// The attributes of a `Response`, each a key and a value, in the order in which they were added.
pub uninterp spec fn response_attributes(response: Response<Empty>) -> Seq<(Seq<char>, Seq<char>)>;

/// How many messages, events and data payloads a `Response` carries besides its attributes.
pub uninterp spec fn response_extras(response: Response<Empty>) -> nat;

/// What `cosmwasm_std::from_slice` reads from `bytes` as a poll record, which is name,
/// yes votes and no votes in a JSON array; `None` where it reports an error.
pub uninterp spec fn parsed_poll(bytes: Seq<u8>) -> Option<(Seq<char>, u64, u64)>;

/// What `cosmwasm_std::from_slice` reads from `bytes` as a text, which is a JSON string;
/// `None` where it reports an error.
pub uninterp spec fn parsed_text(bytes: Seq<u8>) -> Option<Seq<char>>;

/// The bytes that `cw2::set_contract_version` stores for a contract name and a version.
pub uninterp spec fn contract_version_bytes(name: Seq<char>, version: Seq<char>) -> Seq<u8>;

/// Whether `MockApi::addr_validate` accepts `input`.
pub uninterp spec fn address_accepted(input: Seq<char>) -> bool;

/// `after` is `before` with the slot `key` written and no other slot touched.
pub open spec fn written_at(
    before: Map<Seq<u8>, Seq<u8>>,
    after: Map<Seq<u8>, Seq<u8>>,
    key: Seq<u8>,
) -> bool {
    after == before.insert(key, after[key])
}

/// `cw_storage_plus::Map::has`: whether the store holds any bytes in the slot of `key`.
/// The bytes are not read. The namespace must fit the two-byte length prefix,
/// else the outside function panics.
#[verifier::external_body]
pub(crate) fn map_has(store: &MemoryStorage, namespace: &str, key: &String) -> (found: bool)
    requires
        encode_utf8(namespace@).len() <= MAX_NAMESPACE_LEN,
    ensures
        found == store_entries(*store).contains_key(map_key(namespace@, key@)),
{
    cw_storage_plus::Map::<String, (String, u64, u64)>::new(namespace).has(store, key.clone())
}

/// `cw_storage_plus::Map::save`: writes the poll as a JSON array into the slot of `key`
/// and touches no other slot. It cannot fail: the JSON writer has no failing path for
/// texts and unsigned integers, and its output is never empty. What was written reads
/// back as the same poll.
#[verifier::external_body]
pub(crate) fn map_save(store: &mut MemoryStorage, namespace: &str, key: &String, poll: &SPoll) -> (saved:
    Result<(), StdError>)
    requires
        encode_utf8(namespace@).len() <= MAX_NAMESPACE_LEN,
    ensures
        saved is Ok,
        written_at(
            store_entries(*old(store)),
            store_entries(*final(store)),
            map_key(namespace@, key@),
        ),
        parsed_poll(store_entries(*final(store))[map_key(namespace@, key@)]) == Some(poll@.fields()),
{
    let record = (poll.poll_name.clone(), poll.yes_votes, poll.no_votes);
    cw_storage_plus::Map::<String, (String, u64, u64)>::new(namespace).save(store, key.clone(), &record)
}

/// `cw_storage_plus::Map::load`: the poll read from the slot of `key`. It fails where the
/// slot is empty and where its bytes do not read as a poll record.
#[verifier::external_body]
pub(crate) fn map_load(store: &MemoryStorage, namespace: &str, key: &String) -> (loaded: Result<
    SPoll,
    StdError,
>)
    requires
        encode_utf8(namespace@).len() <= MAX_NAMESPACE_LEN,
    ensures
        match loaded {
            Ok(poll) => store_entries(*store).contains_key(map_key(namespace@, key@)) && parsed_poll(
                store_entries(*store)[map_key(namespace@, key@)],
            ) == Some(poll@.fields()),
            Err(_) => !store_entries(*store).contains_key(map_key(namespace@, key@)) || parsed_poll(
                store_entries(*store)[map_key(namespace@, key@)],
            ) is None,
        },
{
    cw_storage_plus::Map::<String, (String, u64, u64)>::new(namespace)
        .load(store, key.clone())
        .map(|(poll_name, yes_votes, no_votes)| SPoll { poll_name, yes_votes, no_votes })
}

/// `cw_storage_plus::Map::may_load`: `None` where the slot of `key` is empty, else the poll
/// read from it. It fails where the slot's bytes do not read as a poll record.
#[verifier::external_body]
pub(crate) fn map_may_load(store: &MemoryStorage, namespace: &str, key: &String) -> (loaded: Result<
    Option<SPoll>,
    StdError,
>)
    requires
        encode_utf8(namespace@).len() <= MAX_NAMESPACE_LEN,
    ensures
        match loaded {
            Ok(None) => !store_entries(*store).contains_key(map_key(namespace@, key@)),
            Ok(Some(poll)) => store_entries(*store).contains_key(map_key(namespace@, key@))
                && parsed_poll(store_entries(*store)[map_key(namespace@, key@)]) == Some(
                poll@.fields(),
            ),
            Err(_) => store_entries(*store).contains_key(map_key(namespace@, key@)) && parsed_poll(
                store_entries(*store)[map_key(namespace@, key@)],
            ) is None,
        },
{
    cw_storage_plus::Map::<String, (String, u64, u64)>::new(namespace)
        .may_load(store, key.clone())
        .map(|found| found.map(|(poll_name, yes_votes, no_votes)| SPoll { poll_name, yes_votes, no_votes }))
}

/// `cw_storage_plus::Item::save`: writes the text as a JSON string into the slot of the
/// namespace and touches no other slot. It cannot fail: the JSON writer has no failing
/// path for a text, and its output is never empty. What was written reads back as the
/// same text.
#[verifier::external_body]
pub(crate) fn item_save(store: &mut MemoryStorage, namespace: &str, text: &String) -> (saved: Result<
    (),
    StdError,
>)
    ensures
        saved is Ok,
        written_at(store_entries(*old(store)), store_entries(*final(store)), item_key(namespace@)),
        parsed_text(store_entries(*final(store))[item_key(namespace@)]) == Some(text@),
{
    cw_storage_plus::Item::<String>::new(namespace).save(store, text)
}

/// `cw_storage_plus::Item::load`: the text read from the slot of the namespace. It fails
/// where the slot is empty and where its bytes do not read as a text.
#[verifier::external_body]
pub(crate) fn item_load(store: &MemoryStorage, namespace: &str) -> (loaded: Result<String, StdError>)
    ensures
        match loaded {
            Ok(text) => store_entries(*store).contains_key(item_key(namespace@)) && parsed_text(
                store_entries(*store)[item_key(namespace@)],
            ) == Some(text@),
            Err(_) => !store_entries(*store).contains_key(item_key(namespace@)) || parsed_text(
                store_entries(*store)[item_key(namespace@)],
            ) is None,
        },
{
    cw_storage_plus::Item::<String>::new(namespace).load(store)
}

/// `cw2::set_contract_version`: writes the contract's name and version into the slot
/// `contract_info` and touches no other slot. It cannot fail, for the same reason as
/// the other writes.
#[verifier::external_body]
pub(crate) fn set_contract_version(store: &mut MemoryStorage, name: &str, version: &str) -> (saved:
    Result<(), StdError>)
    ensures
        saved is Ok,
        store_entries(*final(store)) == store_entries(*old(store)).insert(
            item_key("contract_info"@),
            contract_version_bytes(name@, version@),
        ),
{
    cw2::set_contract_version(store, name, version)
}

/// `Api::addr_validate` of `MockApi`: on success the address is the input, unchanged.
/// Whether it succeeds depends on the input alone.
#[verifier::external_body]
pub(crate) fn validate_address(api: &MockApi, input: &str) -> (validated: Result<String, StdError>)
    ensures
        validated is Ok <==> address_accepted(input@),
        validated matches Ok(address) ==> address@ == input@,
{
    cosmwasm_std::Api::addr_validate(api, input).map(|address| address.into_string())
}

/// `Response::new`: a receipt that carries nothing.
#[verifier::external_body]
pub(crate) fn new_response() -> (response: Response<Empty>)
    ensures
        response_attributes(response) == Seq::<(Seq<char>, Seq<char>)>::empty(),
        response_extras(response) == 0,
{
    Response::new()
}

/// `Response::add_attribute`: the receipt with one more attribute at the end. A key that
/// starts with an underscore is reserved, and the outside function may panic on it.
#[verifier::external_body]
pub(crate) fn add_attribute(response: Response<Empty>, key: &str, value: &str) -> (extended: Response<
    Empty,
>)
    requires
        key@.len() == 0 || key@[0] != '_',
    ensures
        response_attributes(extended) == response_attributes(response).push((key@, value@)),
        response_extras(extended) == response_extras(response),
{
    response.add_attribute(key, value)
}

/// `StdError`'s `to_string`: the failure in the outside crate's own words.
#[verifier::external_body]
pub(crate) fn std_error_text(error: &StdError) -> (text: String)
{
    error.to_string()
}

} // verus!
