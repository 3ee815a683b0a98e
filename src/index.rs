//! The two indexes, each in its own length-prefixed namespace of one storage: alias key to
//! record, and address to the alias it owns.

use vstd::prelude::*;
use vstd::string::*;
use vstd::utf8::*;
use cosmwasm_std::MemoryStorage;
use crate::store::{
    alias_bytes, may_load, may_load_text, remove, save, save_text, text_bytes,
    storage_map, Alias, StoreError,
};

verus! {

/// The namespace of the alias index: the bytes of "aliases".
pub open spec fn aliases_ns() -> Seq<u8> {
    seq![97u8, 108, 105, 97, 115, 101, 115]
}

/// The namespace of the owner index: the bytes of "addresses_aliases".
pub open spec fn addresses_aliases_ns() -> Seq<u8> {
    seq![97u8, 100, 100, 114, 101, 115, 115, 101, 115, 95, 97, 108, 105, 97, 115, 101, 115]
}

/// A namespace preceded by its length as two big-endian bytes.
pub open spec fn length_prefixed(ns: Seq<u8>) -> Seq<u8> {
    seq![(ns.len() / 256) as u8, (ns.len() % 256) as u8] + ns
}

/// Where the alias index keeps the entry for `key`.
pub open spec fn alias_slot(key: Seq<u8>) -> Seq<u8> {
    length_prefixed(aliases_ns()) + key
}

/// Where the owner index keeps the entry for `key`.
pub open spec fn owner_slot(key: Seq<u8>) -> Seq<u8> {
    length_prefixed(addresses_aliases_ns()) + key
}

/// Relies on cosmwasm_storage::to_length_prefixed: two big-endian length bytes, then the
/// namespace (it panics on namespaces over 0xFFFF bytes).
#[verifier::external_body]
fn to_length_prefixed(ns: &[u8]) -> (r: Vec<u8>)
    requires
        ns@.len() <= 0xFFFF,
    ensures
        r@ == length_prefixed(ns@),
{
    cosmwasm_storage::to_length_prefixed(ns)
}

fn aliases_namespace() -> (r: Vec<u8>)
    ensures
        r@ == aliases_ns(),
{
    let r = vec![97u8, 108, 105, 97, 115, 101, 115];
    assert(r@ =~= aliases_ns());
    r
}

fn addresses_aliases_namespace() -> (r: Vec<u8>)
    ensures
        r@ == addresses_aliases_ns(),
{
    let r = vec![97u8, 100, 100, 114, 101, 115, 115, 101, 115, 95, 97, 108, 105, 97, 115, 101, 115];
    assert(r@ =~= addresses_aliases_ns());
    r
}

/// The full storage key of `key` under namespace `ns`.
fn prefixed_key(ns: &[u8], key: &[u8]) -> (r: Vec<u8>)
    requires
        ns@.len() <= 0xFFFF,
    ensures
        r@ == length_prefixed(ns@) + key@,
{
    let mut r = to_length_prefixed(ns);
    let ghost start = r@;
    let mut i: usize = 0;
    while i < key.len()
        invariant
            i <= key@.len(),
            r@ == start + key@.subrange(0, i as int),
        decreases key@.len() - i,
    {
        r.push(key[i]);
        i = i + 1;
        assert(r@ =~= start + key@.subrange(0, i as int));
    }
    assert(key@.subrange(0, key@.len() as int) =~= key@);
    r
}

fn alias_key(key: &[u8]) -> (r: Vec<u8>)
    ensures
        r@ == alias_slot(key@),
{
    let ns = aliases_namespace();
    prefixed_key(ns.as_slice(), key)
}

fn owner_key(key: &[u8]) -> (r: Vec<u8>)
    ensures
        r@ == owner_slot(key@),
{
    let ns = addresses_aliases_namespace();
    prefixed_key(ns.as_slice(), key)
}

/// Read access to the alias index of a storage.
pub struct AliasesReadonlyStorage<'a> {
    storage: &'a MemoryStorage,
}

impl<'a> AliasesReadonlyStorage<'a> {
    pub closed spec fn backing(&self) -> MemoryStorage {
        *self.storage
    }

    pub fn from_storage(storage: &'a MemoryStorage) -> (r: Self)
        ensures
            r.backing() == *storage,
    {
        AliasesReadonlyStorage { storage }
    }

    /// The record under alias key `key`, if any.
    pub fn get_alias(&self, key: &[u8]) -> (r: Result<Option<Alias>, StoreError>)
        ensures
            !storage_map(self.backing()).contains_key(alias_slot(key@)) <==> r == Ok::<
                Option<Alias>,
                StoreError,
            >(None),
            r matches Err(e) ==> e == StoreError::DecodeError,
            forall|v: (Seq<char>, Option<Seq<char>>)|
                storage_map(self.backing()).contains_key(alias_slot(key@)) && #[trigger] alias_bytes(v)
                    == storage_map(self.backing())[alias_slot(key@)] ==> (r matches Ok(Some(a)) && a@ == v),
    {
        let k = alias_key(key);
        may_load(self.storage, k.as_slice())
    }
}

/// Read and write access to the alias index; it holds the storage until `into_storage`.
pub struct AliasesStorage {
    storage: MemoryStorage,
}

impl AliasesStorage {
    pub closed spec fn backing(&self) -> MemoryStorage {
        self.storage
    }

    pub fn from_storage(storage: MemoryStorage) -> (r: Self)
        ensures
            r.backing() == storage,
    {
        AliasesStorage { storage }
    }

    pub fn into_storage(self) -> (r: MemoryStorage)
        ensures
            r == self.backing(),
    {
        self.storage
    }

    /// The record under alias key `key`, if any.
    pub fn get_alias(&self, key: &[u8]) -> (r: Result<Option<Alias>, StoreError>)
        ensures
            !storage_map(self.backing()).contains_key(alias_slot(key@)) <==> r == Ok::<
                Option<Alias>,
                StoreError,
            >(None),
            r matches Err(e) ==> e == StoreError::DecodeError,
            forall|v: (Seq<char>, Option<Seq<char>>)|
                storage_map(self.backing()).contains_key(alias_slot(key@)) && #[trigger] alias_bytes(v)
                    == storage_map(self.backing())[alias_slot(key@)] ==> (r matches Ok(Some(a)) && a@ == v),
    {
        AliasesReadonlyStorage::from_storage(&self.storage).get_alias(key)
    }

    /// Drops the entry for alias key `key`, if any.
    pub fn remove_alias(&mut self, key: &[u8])
        ensures
            storage_map(final(self).backing()) == storage_map(old(self).backing()).remove(
                alias_slot(key@),
            ),
    {
        let k = alias_key(key);
        remove(&mut self.storage, k.as_slice())
    }

    /// Stores `value` as the entry for alias key `key`.
    pub fn set_alias(&mut self, key: &[u8], value: Alias) -> (r: Result<(), StoreError>)
        ensures
            r is Ok,
            storage_map(final(self).backing()) == storage_map(old(self).backing()).insert(
                alias_slot(key@),
                alias_bytes(value@),
            ),
    {
        let k = alias_key(key);
        save(&mut self.storage, k.as_slice(), &value)
    }
}

/// The owner-index key of an address: the bytes of its text.
pub open spec fn address_key(address: Seq<char>) -> Seq<u8> {
    encode_utf8(address)
}

/// Read access to the owner index of a storage.
pub struct AddressesAliasesReadonlyStorage<'a> {
    storage: &'a MemoryStorage,
}

impl<'a> AddressesAliasesReadonlyStorage<'a> {
    pub closed spec fn backing(&self) -> MemoryStorage {
        *self.storage
    }

    pub fn from_storage(storage: &'a MemoryStorage) -> (r: Self)
        ensures
            r.backing() == *storage,
    {
        AddressesAliasesReadonlyStorage { storage }
    }

    /// The alias that address `key` owns, if any.
    pub fn get_alias(&self, key: &String) -> (r: Result<Option<String>, StoreError>)
        ensures
            !storage_map(self.backing()).contains_key(owner_slot(address_key(key@))) <==> r
                == Ok::<Option<String>, StoreError>(None),
            r matches Err(e) ==> e == StoreError::DecodeError,
            forall|t: Seq<char>|
                storage_map(self.backing()).contains_key(owner_slot(address_key(key@)))
                    && #[trigger] text_bytes(t) == storage_map(self.backing())[owner_slot(
                    address_key(key@),
                )] ==> (r matches Ok(Some(x)) && x@ == t),
    {
        let k = owner_key(key.as_str().as_bytes());
        may_load_text(self.storage, k.as_slice())
    }
}

/// Read and write access to the owner index; it holds the storage until `into_storage`.
pub struct AddressesAliasesStorage {
    storage: MemoryStorage,
}

impl AddressesAliasesStorage {
    pub closed spec fn backing(&self) -> MemoryStorage {
        self.storage
    }

    pub fn from_storage(storage: MemoryStorage) -> (r: Self)
        ensures
            r.backing() == storage,
    {
        AddressesAliasesStorage { storage }
    }

    pub fn into_storage(self) -> (r: MemoryStorage)
        ensures
            r == self.backing(),
    {
        self.storage
    }

    /// The alias that address `key` owns, if any.
    pub fn get_alias(&self, key: &String) -> (r: Result<Option<String>, StoreError>)
        ensures
            !storage_map(self.backing()).contains_key(owner_slot(address_key(key@))) <==> r
                == Ok::<Option<String>, StoreError>(None),
            r matches Err(e) ==> e == StoreError::DecodeError,
            forall|t: Seq<char>|
                storage_map(self.backing()).contains_key(owner_slot(address_key(key@)))
                    && #[trigger] text_bytes(t) == storage_map(self.backing())[owner_slot(
                    address_key(key@),
                )] ==> (r matches Ok(Some(x)) && x@ == t),
    {
        AddressesAliasesReadonlyStorage::from_storage(&self.storage).get_alias(key)
    }

    /// Drops the entry for address key `key`, if any.
    pub fn remove_alias(&mut self, key: &[u8])
        ensures
            storage_map(final(self).backing()) == storage_map(old(self).backing()).remove(
                owner_slot(key@),
            ),
    {
        let k = owner_key(key);
        remove(&mut self.storage, k.as_slice())
    }

    /// Records that address key `key` owns the alias `value`.
    pub fn set_alias(&mut self, key: &[u8], value: &String) -> (r: Result<(), StoreError>)
        ensures
            r is Ok,
            storage_map(final(self).backing()) == storage_map(old(self).backing()).insert(
                owner_slot(key@),
                text_bytes(value@),
            ),
    {
        let k = owner_key(key);
        save_text(&mut self.storage, k.as_slice(), value)
    }
}

} // verus!
