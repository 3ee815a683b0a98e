//! The encoded storage adapter: load, save and remove records over cosmwasm's in-memory
//! key-value store, with bincode2 as the binary encoding.

use vstd::prelude::*;
use cosmwasm_std::{MemoryStorage, ReadonlyStorage, Storage};
use secret_toolkit::serialization::{Bincode2, Serde};

verus! {

/// cosmwasm_std's in-memory store: a map from byte keys to byte values.
#[verifier::external_type_specification]
#[verifier::external_body]
pub struct ExMemoryStorage(MemoryStorage);

/// What a storage holds: each present key with its stored bytes.
pub uninterp spec fn storage_map(s: MemoryStorage) -> Map<Seq<u8>, Seq<u8>>;

/// The bytes that bincode2 writes for a string.
pub uninterp spec fn text_bytes(t: Seq<char>) -> Seq<u8>;

/// The bytes that bincode2 writes for an alias record (owner, avatar).
pub uninterp spec fn record_bytes(owner: Seq<char>, avatar: Option<Seq<char>>) -> Seq<u8>;

/// The view of an optional string.
pub open spec fn opt_view(o: Option<String>) -> Option<Seq<char>> {
    match o {
        Some(s) => Some(s@),
        None => None,
    }
}

/// `r` holds a pair whose views are `o` and `a`.
pub open spec fn decoded_as(r: Option<(String, Option<String>)>, o: Seq<char>, a: Option<Seq<char>>) -> bool {
    match r {
        Some((x, y)) => x@ == o && opt_view(y) == a,
        None => false,
    }
}

/// Relies on cosmwasm_std::MemoryStorage::new: an empty map.
#[verifier::external_body]
pub(crate) fn new_storage() -> (r: MemoryStorage)
    ensures
        storage_map(r) =~= Map::empty(),
{
    MemoryStorage::new()
}

/// Relies on MemoryStorage's ReadonlyStorage::get: a clone of the value under `key`.
#[verifier::external_body]
fn storage_get(s: &MemoryStorage, key: &[u8]) -> (r: Option<Vec<u8>>)
    ensures
        storage_map(*s).contains_key(key@) <==> r is Some,
        r is Some ==> r->0@ == storage_map(*s)[key@],
{
    s.get(key)
}

/// Relies on MemoryStorage's Storage::set: inserts or replaces the value under `key`.
#[verifier::external_body]
fn storage_set(s: &mut MemoryStorage, key: &[u8], value: &[u8])
    ensures
        storage_map(*final(s)) == storage_map(*old(s)).insert(key@, value@),
{
    s.set(key, value)
}

/// Relies on MemoryStorage's Storage::remove: drops `key` if present.
#[verifier::external_body]
fn storage_remove(s: &mut MemoryStorage, key: &[u8])
    ensures
        storage_map(*final(s)) == storage_map(*old(s)).remove(key@),
{
    s.remove(key)
}

/// Relies on secret_toolkit's Bincode2::serialize on a pair of a string and an optional
/// string: bincode2's default options have no size limit and writing to a `Vec` cannot
/// fail, so this always succeeds.
#[verifier::external_body]
fn encode_record(owner: &String, avatar: &Option<String>) -> (r: Option<Vec<u8>>)
    ensures
        r == Some(r->0),
        r->0@ == record_bytes(owner@, opt_view(*avatar)),
{
    Bincode2::serialize(&(owner, avatar)).ok()
}

/// Relies on secret_toolkit's Bincode2::deserialize: bytes that bincode2 wrote for a
/// pair read back as that pair.
#[verifier::external_body]
fn decode_record(bytes: &[u8]) -> (r: Option<(String, Option<String>)>)
    ensures
        forall|o: Seq<char>, a: Option<Seq<char>>|
            #[trigger] record_bytes(o, a) == bytes@ ==> decoded_as(r, o, a),
{
    Bincode2::deserialize::<(String, Option<String>)>(bytes).ok()
}

/// Relies on secret_toolkit's Bincode2::serialize on a string: as for the record,
/// nothing in bincode2's default path can fail here.
#[verifier::external_body]
fn encode_text(t: &String) -> (r: Option<Vec<u8>>)
    ensures
        r == Some(r->0),
        r->0@ == text_bytes(t@),
{
    Bincode2::serialize(t).ok()
}

/// Relies on secret_toolkit's Bincode2::deserialize: bytes that bincode2 wrote for a
/// string read back as that string.
#[verifier::external_body]
fn decode_text(bytes: &[u8]) -> (r: Option<String>)
    ensures
        forall|t: Seq<char>| #[trigger] text_bytes(t) == bytes@ ==> (r is Some && r->0@ == t),
{
    Bincode2::deserialize::<String>(bytes).ok()
}

/// An alias record: the address that claimed the alias and an optional avatar URL.
#[derive(Clone, Debug)]
pub struct Alias {
    pub human_address: String,
    pub avatar_url: Option<String>,
}

impl View for Alias {
    type V = (Seq<char>, Option<Seq<char>>);

    open spec fn view(&self) -> Self::V {
        (self.human_address@, opt_view(self.avatar_url))
    }
}

/// The stored form of a record with view `v`.
pub open spec fn alias_bytes(v: (Seq<char>, Option<Seq<char>>)) -> Seq<u8> {
    record_bytes(v.0, v.1)
}

#[derive(Clone, Debug, PartialEq, Eq)]
pub enum StoreError {
    /// `load` found no value; carries the name of the record type.
    NotFound { kind: String },
    EncodeError,
    DecodeError,
}

fn record_type_name() -> (r: String)
    ensures
        r@ == seq!['A', 'l', 'i', 'a', 's'],
{
    proof {
        reveal_strlit("Alias");
    }
    String::from_str("Alias")
}

/// Reads the record under `key`; absence is `Ok(None)`.
pub fn may_load(storage: &MemoryStorage, key: &[u8]) -> (r: Result<Option<Alias>, StoreError>)
    ensures
        !storage_map(*storage).contains_key(key@) <==> r == Ok::<Option<Alias>, StoreError>(None),
        r matches Err(e) ==> e == StoreError::DecodeError,
        forall|v: (Seq<char>, Option<Seq<char>>)|
            storage_map(*storage).contains_key(key@) && #[trigger] alias_bytes(v)
                == storage_map(*storage)[key@] ==> r == Ok::<Option<Alias>, StoreError>(r->Ok_0)
                && r->Ok_0 is Some && r->Ok_0->0@ == v,
{
    match storage_get(storage, key) {
        None => Ok(None),
        Some(bytes) => match decode_record(bytes.as_slice()) {
            Some((owner, avatar)) => Ok(Some(Alias { human_address: owner, avatar_url: avatar })),
            None => Err(StoreError::DecodeError),
        },
    }
}

/// Reads the record under `key`; absence is `NotFound` naming the record type.
pub fn load(storage: &MemoryStorage, key: &[u8]) -> (r: Result<Alias, StoreError>)
    ensures
        !storage_map(*storage).contains_key(key@) <==> r matches Err(StoreError::NotFound { .. }),
        r matches Err(StoreError::NotFound { kind }) ==> kind@ == seq!['A', 'l', 'i', 'a', 's'],
        r matches Err(e) ==> e == StoreError::DecodeError || e matches StoreError::NotFound { .. },
        forall|v: (Seq<char>, Option<Seq<char>>)|
            storage_map(*storage).contains_key(key@) && #[trigger] alias_bytes(v)
                == storage_map(*storage)[key@] ==> (r matches Ok(a) && a@ == v),
{
    match may_load(storage, key) {
        Ok(Some(a)) => Ok(a),
        Ok(None) => Err(StoreError::NotFound { kind: record_type_name() }),
        Err(e) => Err(e),
    }
}

/// Writes the encoded record under `key`.
pub fn save(storage: &mut MemoryStorage, key: &[u8], value: &Alias) -> (r: Result<(), StoreError>)
    ensures
        r is Ok,
        storage_map(*final(storage)) == storage_map(*old(storage)).insert(key@, alias_bytes(value@)),
{
    match encode_record(&value.human_address, &value.avatar_url) {
        Some(bytes) => {
            storage_set(storage, key, bytes.as_slice());
            Ok(())
        },
        None => Err(StoreError::EncodeError),
    }
}

/// Drops whatever is stored under `key`.
pub fn remove(storage: &mut MemoryStorage, key: &[u8])
    ensures
        storage_map(*final(storage)) == storage_map(*old(storage)).remove(key@),
{
    storage_remove(storage, key)
}

/// Reads the string under `key`; absence is `Ok(None)`.
pub fn may_load_text(storage: &MemoryStorage, key: &[u8]) -> (r: Result<Option<String>, StoreError>)
    ensures
        !storage_map(*storage).contains_key(key@) <==> r == Ok::<Option<String>, StoreError>(None),
        r matches Err(e) ==> e == StoreError::DecodeError,
        forall|t: Seq<char>|
            storage_map(*storage).contains_key(key@) && #[trigger] text_bytes(t)
                == storage_map(*storage)[key@] ==> (r matches Ok(Some(x)) && x@ == t),
{
    match storage_get(storage, key) {
        None => Ok(None),
        Some(bytes) => match decode_text(bytes.as_slice()) {
            Some(t) => Ok(Some(t)),
            None => Err(StoreError::DecodeError),
        },
    }
}

/// Writes the encoded string under `key`.
pub fn save_text(storage: &mut MemoryStorage, key: &[u8], value: &String) -> (r: Result<(), StoreError>)
    ensures
        r is Ok,
        storage_map(*final(storage)) == storage_map(*old(storage)).insert(key@, text_bytes(value@)),
{
    match encode_text(value) {
        Some(bytes) => {
            storage_set(storage, key, bytes.as_slice());
            Ok(())
        },
        None => Err(StoreError::EncodeError),
    }
}

} // verus!
