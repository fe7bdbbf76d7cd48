//! How the ledger lies in the byte store.
//!
//! The configuration is one record, the polls are a collection keyed by name. Both use
//! the same namespace; their slots differ all the same, and neither meets the slot in
//! which the contract's version is recorded. That is what the lemmas here show.

use vstd::prelude::*;
use vstd::utf8::*;
use cosmwasm_std::MemoryStorage;
use crate::keys::{
    item_key,
    item_slot,
    lemma_item_key_is_no_map_key,
    lemma_map_key_injective,
    lemma_map_key_starts_with_zero,
    lemma_text_bytes_injective,
    map_key,
    map_slot,
};
use crate::ledger::{Ledger, Stored};
use crate::state::{ConfigView, PollView};
use crate::store::{parsed_poll, parsed_text, store_entries, written_at};

verus! {

/// The namespace of the configuration record.
pub const CONFIG_NAMESPACE: &'static str = "key";

/// The namespace of the polls.
pub const POLL_NAMESPACE: &'static str = "key";

/// The namespace under which the contract's name and version are recorded.
pub const CONTRACT_INFO_NAMESPACE: &'static str = "contract_info";

/// The slot of the configuration record.
pub open spec fn config_key() -> Seq<u8> {
    item_key(CONFIG_NAMESPACE@)
}

/// The slot of the poll named `poll_name`.
pub open spec fn poll_key(poll_name: Seq<char>) -> Seq<u8> {
    map_key(POLL_NAMESPACE@, poll_name)
}

/// The slot in which the contract's name and version are recorded.
pub open spec fn contract_info_key() -> Seq<u8> {
    item_key(CONTRACT_INFO_NAMESPACE@)
}

/// The configuration that a slot's bytes read as.
pub open spec fn read_config(bytes: Seq<u8>) -> Stored<ConfigView> {
    match parsed_text(bytes) {
        Some(admin_address) => Stored::Record(ConfigView { admin_address }),
        None => Stored::Unreadable,
    }
}

/// The poll that a slot's bytes read as.
pub open spec fn read_poll(bytes: Seq<u8>) -> Stored<PollView> {
    match parsed_poll(bytes) {
        Some(fields) => Stored::Record(PollView::from_fields(fields)),
        None => Stored::Unreadable,
    }
}

/// The ledger that a store's entries hold.
pub open spec fn ledger_of_entries(entries: Map<Seq<u8>, Seq<u8>>) -> Ledger {
    Ledger {
        config: if entries.contains_key(config_key()) {
            Some(read_config(entries[config_key()]))
        } else {
            None
        },
        polls: Map::new(
            |poll_name: Seq<char>| entries.contains_key(poll_key(poll_name)),
            |poll_name: Seq<char>| read_poll(entries[poll_key(poll_name)]),
        ),
    }
}

/// The ledger that a store holds.
pub open spec fn ledger_of(store: MemoryStorage) -> Ledger {
    ledger_of_entries(store_entries(store))
}

/// The namespaces of the configuration and of the polls are three bytes long.
pub proof fn lemma_namespaces_fit()
    ensures
        encode_utf8(CONFIG_NAMESPACE@).len() == 3,
        encode_utf8(POLL_NAMESPACE@).len() == 3,
{
    reveal_strlit("key");
    assert(is_ascii_chars(POLL_NAMESPACE@));
    is_ascii_chars_encode_utf8(POLL_NAMESPACE@);
}

/// Every poll has a slot of its own: two names share a slot only if they are the same name.
pub proof fn lemma_poll_slots_differ(one: Seq<char>, other: Seq<char>)
    requires
        one != other,
    ensures
        poll_key(one) != poll_key(other),
{
    if poll_key(one) == poll_key(other) {
        lemma_map_key_injective(POLL_NAMESPACE@, one, other);
    }
}

/// The configuration's slot is no poll's, though both use the same namespace.
pub proof fn lemma_config_slot_is_no_poll_slot(poll_name: Seq<char>)
    ensures
        config_key() != poll_key(poll_name),
{
    lemma_item_key_is_no_map_key(CONFIG_NAMESPACE@, poll_name);
}

/// The slot of the contract's version is neither the configuration's nor a poll's.
pub proof fn lemma_version_slot_is_apart(poll_name: Seq<char>)
    ensures
        contract_info_key() != config_key(),
        contract_info_key() != poll_key(poll_name),
{
    reveal_strlit("contract_info");
    reveal_strlit("key");
    let info = CONTRACT_INFO_NAMESPACE@;
    assert(is_ascii_chars(info));
    is_ascii_chars_encode_utf8(info);
    assert(info[0] == 'c');
    assert(contract_info_key()[0] == 0x63u8);
    if contract_info_key() == config_key() {
        lemma_text_bytes_injective(info, CONFIG_NAMESPACE@);
    }
    lemma_namespaces_fit();
    lemma_map_key_starts_with_zero(POLL_NAMESPACE@, poll_name);
}

/// Writing the slot of one poll changes that poll in the ledger and nothing else.
pub proof fn lemma_poll_written(
    before: Map<Seq<u8>, Seq<u8>>,
    after: Map<Seq<u8>, Seq<u8>>,
    poll_name: Seq<char>,
)
    requires
        written_at(before, after, poll_key(poll_name)),
    ensures
        ledger_of_entries(after) == (Ledger {
            polls: ledger_of_entries(before).polls.insert(
                poll_name,
                read_poll(after[poll_key(poll_name)]),
            ),
            ..ledger_of_entries(before)
        }),
{
    lemma_config_slot_is_no_poll_slot(poll_name);
    assert forall|other: Seq<char>| other != poll_name implies poll_key(other) != poll_key(
        poll_name,
    ) by {
        lemma_poll_slots_differ(other, poll_name);
    }
    assert(ledger_of_entries(after).polls =~= ledger_of_entries(before).polls.insert(
        poll_name,
        read_poll(after[poll_key(poll_name)]),
    ));
}

/// Writing the slot of the configuration changes the configuration in the ledger and
/// nothing else.
pub proof fn lemma_config_written(before: Map<Seq<u8>, Seq<u8>>, after: Map<Seq<u8>, Seq<u8>>)
    requires
        written_at(before, after, config_key()),
    ensures
        ledger_of_entries(after) == (Ledger {
            config: Some(read_config(after[config_key()])),
            ..ledger_of_entries(before)
        }),
{
    assert forall|poll_name: Seq<char>| config_key() != poll_key(poll_name) by {
        lemma_config_slot_is_no_poll_slot(poll_name);
    }
    assert(ledger_of_entries(after).polls =~= ledger_of_entries(before).polls);
}

/// Writing the slot of the contract's version leaves the ledger as it is.
pub proof fn lemma_version_is_off_ledger(entries: Map<Seq<u8>, Seq<u8>>, bytes: Seq<u8>)
    ensures
        ledger_of_entries(entries.insert(contract_info_key(), bytes)) == ledger_of_entries(entries),
{
    assert forall|poll_name: Seq<char>| contract_info_key() != poll_key(poll_name) by {
        lemma_version_slot_is_apart(poll_name);
    }
    lemma_version_slot_is_apart(Seq::empty());
    let written = entries.insert(contract_info_key(), bytes);
    assert(ledger_of_entries(written).polls =~= ledger_of_entries(entries).polls);
}

/// Builds the slot of the configuration record.
pub fn config_slot() -> (slot: Vec<u8>)
    ensures
        slot@ == config_key(),
{
    item_slot(CONFIG_NAMESPACE)
}

/// Builds the slot of the poll named `poll_name`.
pub fn poll_slot(poll_name: &str) -> (slot: Vec<u8>)
    ensures
        slot@ == poll_key(poll_name@),
{
    proof {
        lemma_namespaces_fit();
    }
    map_slot(POLL_NAMESPACE, poll_name)
}

} // verus!
