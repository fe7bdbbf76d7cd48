//! Where records live in the byte store.
//!
//! A single record sits under the bytes of its namespace. A record of a keyed
//! collection sits under the namespace, written with its length in front, and
//! then the bytes of the record's own key. The lemmas here say when two such
//! slots can be the same.

use vstd::prelude::*;
use vstd::slice::slice_to_vec;
use vstd::utf8::*;

verus! {

/// The longest namespace whose length fits the two-byte prefix.
pub const MAX_NAMESPACE_LEN: usize = 0xFFFF;

/// A length as two bytes, high byte first.
pub open spec fn length_prefix(len: nat) -> Seq<u8> {
    seq![((len / 256) % 256) as u8, (len % 256) as u8]
}

/// The slot of a single record stored under `namespace`.
pub open spec fn item_key(namespace: Seq<char>) -> Seq<u8> {
    encode_utf8(namespace)
}

/// The slot of the record with key `key` in the collection stored under `namespace`.
pub open spec fn map_key(namespace: Seq<char>, key: Seq<char>) -> Seq<u8> {
    length_prefix(encode_utf8(namespace).len()) + encode_utf8(namespace) + encode_utf8(key)
}

/// Builds the slot of a single record stored under `namespace`.
pub fn item_slot(namespace: &str) -> (slot: Vec<u8>)
    ensures
        slot@ == item_key(namespace@),
{
    slice_to_vec(namespace.as_bytes())
}

/// Builds the slot of the record with key `key` in the collection stored under `namespace`.
pub fn map_slot(namespace: &str, key: &str) -> (slot: Vec<u8>)
    requires
        encode_utf8(namespace@).len() <= MAX_NAMESPACE_LEN,
    ensures
        slot@ == map_key(namespace@, key@),
{
    let name = namespace.as_bytes();
    let len: usize = name.len();
    let mut slot: Vec<u8> = Vec::new();
    slot.push((len / 256) as u8);
    slot.push((len % 256) as u8);
    slot.extend_from_slice(name);
    slot.extend_from_slice(key.as_bytes());
    assert(slot@ =~= map_key(namespace@, key@));
    slot
}

/// Two texts with the same bytes are the same text.
pub proof fn lemma_text_bytes_injective(a: Seq<char>, b: Seq<char>)
    requires
        encode_utf8(a) == encode_utf8(b),
    ensures
        a == b,
{
    encode_utf8_decode_utf8(a);
    encode_utf8_decode_utf8(b);
}

/// Within one collection, two keys share a slot only if they are the same key.
pub proof fn lemma_map_key_injective(namespace: Seq<char>, a: Seq<char>, b: Seq<char>)
    requires
        map_key(namespace, a) == map_key(namespace, b),
    ensures
        a == b,
{
    let head = length_prefix(encode_utf8(namespace).len()) + encode_utf8(namespace);
    let ka = map_key(namespace, a);
    let kb = map_key(namespace, b);
    assert(ka.subrange(head.len() as int, ka.len() as int) =~= encode_utf8(a));
    assert(kb.subrange(head.len() as int, kb.len() as int) =~= encode_utf8(b));
    lemma_text_bytes_injective(a, b);
}

/// A single record and a collection stored under the same namespace never share a slot:
/// every slot of the collection is longer than the namespace.
pub proof fn lemma_item_key_is_no_map_key(namespace: Seq<char>, key: Seq<char>)
    ensures
        item_key(namespace) != map_key(namespace, key),
{
    assert(map_key(namespace, key).len() == 2 + encode_utf8(namespace).len() + encode_utf8(key).len());
}

/// The slots of a collection whose namespace is shorter than 256 bytes start with a zero byte.
pub proof fn lemma_map_key_starts_with_zero(namespace: Seq<char>, key: Seq<char>)
    requires
        encode_utf8(namespace).len() < 256,
    ensures
        map_key(namespace, key).len() >= 2,
        map_key(namespace, key)[0] == 0u8,
{
}

} // verus!
