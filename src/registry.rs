//! The registry core: `create`, `destroy` and `search` over both indexes, with the
//! cross-index invariant and the laws that follow from it.

use vstd::prelude::*;
use vstd::string::*;
use vstd::utf8::*;
use cosmwasm_std::MemoryStorage;
use crate::index::{
    address_key, addresses_aliases_ns, alias_slot, aliases_ns, length_prefixed, owner_slot,
    AddressesAliasesReadonlyStorage, AddressesAliasesStorage, AliasesReadonlyStorage,
    AliasesStorage,
};
use crate::msg::{AliasAttributes, HandleAnswer, HandleMsg, QueryMsg, ResponseStatus, SearchResponse};
use crate::store::{alias_bytes, new_storage, opt_view, storage_map, text_bytes, Alias, StoreError};

verus! {

/// The view of a record: owner address and optional avatar URL.
pub type RecordView = (Seq<char>, Option<Seq<char>>);

/// The abstract registry: both indexes keyed by text, and the raw storage below them.
pub ghost struct RegistryModel {
    pub aliases: Map<Seq<char>, RecordView>,
    pub owners: Map<Seq<char>, Seq<char>>,
    pub stored: Map<Seq<u8>, Seq<u8>>,
}

#[derive(Clone, Debug, PartialEq, Eq)]
pub enum RegistryError {
    AliasNotFound,
    AliasTaken,
    AddressAlreadyHasAlias,
    NotOwner,
    UnsupportedSearchType,
    /// The owner index names an alias that the alias index lacks.
    InternalInconsistency,
    Storage(StoreError),
}

/// The storage key of alias `a`.
pub open spec fn alias_entry(a: Seq<char>) -> Seq<u8> {
    alias_slot(encode_utf8(a))
}

/// The storage key of the owner entry of address `d`.
pub open spec fn owner_entry(d: Seq<char>) -> Seq<u8> {
    owner_slot(address_key(d))
}

/// Every owner entry names an alias whose record has that owner, and every record's
/// owner has an owner entry naming that alias.
pub open spec fn indexes_agree(
    aliases: Map<Seq<char>, RecordView>,
    owners: Map<Seq<char>, Seq<char>>,
) -> bool {
    &&& forall|d: Seq<char>| #[trigger]
        owners.contains_key(d) ==> aliases.contains_key(owners[d]) && aliases[owners[d]].0 == d
    &&& forall|a: Seq<char>| #[trigger]
        aliases.contains_key(a) ==> owners.contains_key(aliases[a].0) && owners[aliases[a].0] == a
}

/// No two addresses own the same alias.
pub open spec fn owners_unique(owners: Map<Seq<char>, Seq<char>>) -> bool {
    forall|d1: Seq<char>, d2: Seq<char>|
        #![trigger owners[d1], owners[d2]]
        owners.contains_key(d1) && owners.contains_key(d2) && owners[d1] == owners[d2] ==> d1 == d2
}

pub open spec fn alias_kind() -> Seq<char> {
    seq!['a', 'l', 'i', 'a', 's']
}

pub open spec fn address_kind() -> Seq<char> {
    seq!['a', 'd', 'd', 'r', 'e', 's', 's']
}

/// What `create` does to a registry, and what it returns.
pub open spec fn create_spec(
    m: RegistryModel,
    caller: Seq<char>,
    alias: Seq<char>,
    avatar: Option<Seq<char>>,
) -> (RegistryModel, Result<RecordView, RegistryError>) {
    if m.aliases.contains_key(alias) {
        (m, Err(RegistryError::AliasTaken))
    } else if m.owners.contains_key(caller) {
        (m, Err(RegistryError::AddressAlreadyHasAlias))
    } else {
        (
            RegistryModel {
                aliases: m.aliases.insert(alias, (caller, avatar)),
                owners: m.owners.insert(caller, alias),
                stored: m.stored.insert(alias_entry(alias), alias_bytes((caller, avatar))).insert(
                    owner_entry(caller),
                    text_bytes(alias),
                ),
            },
            Ok((caller, avatar)),
        )
    }
}

/// What `destroy` does to a registry, and what it returns.
pub open spec fn destroy_spec(m: RegistryModel, caller: Seq<char>, alias: Seq<char>) -> (
    RegistryModel,
    Result<ResponseStatus, RegistryError>,
) {
    if !m.aliases.contains_key(alias) {
        (m, Err(RegistryError::AliasNotFound))
    } else if m.aliases[alias].0 != caller {
        (m, Err(RegistryError::NotOwner))
    } else {
        (
            RegistryModel {
                aliases: m.aliases.remove(alias),
                owners: m.owners.remove(caller),
                stored: m.stored.remove(alias_entry(alias)).remove(owner_entry(caller)),
            },
            Ok(ResponseStatus::Success),
        )
    }
}

/// What `search` returns: the kind that matched, the alias, and its record.
pub open spec fn search_spec(m: RegistryModel, kind: Seq<char>, value: Seq<char>) -> Result<
    (Seq<char>, Seq<char>, RecordView),
    RegistryError,
> {
    if kind == alias_kind() {
        if m.aliases.contains_key(value) {
            Ok((alias_kind(), value, m.aliases[value]))
        } else {
            Err(RegistryError::AliasNotFound)
        }
    } else if kind == address_kind() {
        if m.owners.contains_key(value) {
            Ok((address_kind(), m.owners[value], m.aliases[m.owners[value]]))
        } else {
            Err(RegistryError::AliasNotFound)
        }
    } else {
        Err(RegistryError::UnsupportedSearchType)
    }
}

pub open spec fn record_result(r: Result<Alias, RegistryError>) -> Result<RecordView, RegistryError> {
    match r {
        Ok(a) => Ok(a@),
        Err(e) => Err(e),
    }
}

pub open spec fn search_result(r: Result<SearchResponse, RegistryError>) -> Result<
    (Seq<char>, Seq<char>, RecordView),
    RegistryError,
> {
    match r {
        Ok(s) => Ok(
            (
                s.kind@,
                s.attributes.alias@,
                (s.attributes.address@, opt_view(s.attributes.avatar_url)),
            ),
        ),
        Err(e) => Err(e),
    }
}

broadcast proof fn lemma_alias_entry_injective(a: Seq<char>, b: Seq<char>)
    ensures
        #[trigger] alias_entry(a) == #[trigger] alias_entry(b) ==> a == b,
{
    if alias_entry(a) == alias_entry(b) {
        let p = length_prefixed(aliases_ns());
        assert(encode_utf8(a) =~= alias_entry(a).subrange(p.len() as int, alias_entry(a).len() as int));
        assert(encode_utf8(b) =~= alias_entry(b).subrange(p.len() as int, alias_entry(b).len() as int));
        encode_utf8_decode_utf8(a);
        encode_utf8_decode_utf8(b);
    }
}

broadcast proof fn lemma_owner_entry_injective(a: Seq<char>, b: Seq<char>)
    ensures
        #[trigger] owner_entry(a) == #[trigger] owner_entry(b) ==> a == b,
{
    if owner_entry(a) == owner_entry(b) {
        let p = length_prefixed(addresses_aliases_ns());
        assert(encode_utf8(a) =~= owner_entry(a).subrange(p.len() as int, owner_entry(a).len() as int));
        assert(encode_utf8(b) =~= owner_entry(b).subrange(p.len() as int, owner_entry(b).len() as int));
        encode_utf8_decode_utf8(a);
        encode_utf8_decode_utf8(b);
    }
}

broadcast proof fn lemma_entries_disjoint(a: Seq<char>, d: Seq<char>)
    ensures
        #[trigger] alias_entry(a) != #[trigger] owner_entry(d),
{
    assert(alias_entry(a)[1] == 7u8);
    assert(owner_entry(d)[1] == 17u8);
}

broadcast group group_entry_keys {
    lemma_alias_entry_injective,
    lemma_owner_entry_injective,
    lemma_entries_disjoint,
}

/// The alias registry: an alias index and an owner index over one storage.
pub struct Registry {
    storage: MemoryStorage,
    aliases: Ghost<Map<Seq<char>, RecordView>>,
    owners: Ghost<Map<Seq<char>, Seq<char>>>,
}

impl View for Registry {
    type V = RegistryModel;

    closed spec fn view(&self) -> RegistryModel {
        RegistryModel {
            aliases: self.aliases@,
            owners: self.owners@,
            stored: storage_map(self.storage),
        }
    }
}

impl Registry {
    /// The storage holds exactly the entries of the two indexes' models, and these agree.
    pub closed spec fn wf(&self) -> bool {
        &&& forall|a: Seq<char>|
            #![trigger self.aliases@.contains_key(a)]
            #![trigger storage_map(self.storage).contains_key(alias_entry(a))]
            storage_map(self.storage).contains_key(alias_entry(a)) <==> self.aliases@.contains_key(a)
        &&& forall|a: Seq<char>| #[trigger]
            self.aliases@.contains_key(a) ==> storage_map(self.storage)[alias_entry(a)]
                == alias_bytes(self.aliases@[a])
        &&& forall|d: Seq<char>|
            #![trigger self.owners@.contains_key(d)]
            #![trigger storage_map(self.storage).contains_key(owner_entry(d))]
            storage_map(self.storage).contains_key(owner_entry(d)) <==> self.owners@.contains_key(d)
        &&& forall|d: Seq<char>| #[trigger]
            self.owners@.contains_key(d) ==> storage_map(self.storage)[owner_entry(d)]
                == text_bytes(self.owners@[d])
        &&& indexes_agree(self.aliases@, self.owners@)
    }

    /// An empty registry over fresh storage.
    pub fn new() -> (r: Self)
        ensures
            r.wf(),
            r@.aliases == Map::<Seq<char>, RecordView>::empty(),
            r@.owners == Map::<Seq<char>, Seq<char>>::empty(),
            r@.stored == Map::<Seq<u8>, Seq<u8>>::empty(),
    {
        let r = Registry { storage: new_storage(), aliases: Ghost(Map::empty()), owners: Ghost(Map::empty()) };
        assert(r@.stored =~= Map::<Seq<u8>, Seq<u8>>::empty());
        r
    }

    /// Claims `alias` for `caller` with an optional avatar URL and returns the new record.
    pub fn create(&mut self, caller: &String, alias: &String, avatar_url: Option<String>) -> (r: Result<
        Alias,
        RegistryError,
    >)
        requires
            old(self).wf(),
        ensures
            final(self).wf(),
            (final(self)@, record_result(r)) == create_spec(old(self)@, caller@, alias@, opt_view(avatar_url)),
    {
        broadcast use group_entry_keys;

        let alias_key = alias.as_str().as_bytes();
        let caller_key = caller.as_str().as_bytes();
        match AliasesReadonlyStorage::from_storage(&self.storage).get_alias(alias_key) {
            Ok(Some(_)) => return Err(RegistryError::AliasTaken),
            Ok(None) => {},
            Err(e) => return Err(RegistryError::Storage(e)),
        }
        match AddressesAliasesReadonlyStorage::from_storage(&self.storage).get_alias(caller) {
            Ok(Some(_)) => return Err(RegistryError::AddressAlreadyHasAlias),
            Ok(None) => {},
            Err(e) => return Err(RegistryError::Storage(e)),
        }
        let stored_avatar = match &avatar_url {
            Some(u) => Some(u.clone()),
            None => None,
        };
        let stored = Alias { human_address: caller.clone(), avatar_url: stored_avatar };
        let created = Alias { human_address: caller.clone(), avatar_url };
        let ghost old_self = *self;
        let mut storage = new_storage();
        core::mem::swap(&mut storage, &mut self.storage);
        let mut aliases = AliasesStorage::from_storage(storage);
        if let Err(e) = aliases.set_alias(alias_key, stored) {
            self.storage = aliases.into_storage();
            return Err(RegistryError::Storage(e));
        }
        let mut owners = AddressesAliasesStorage::from_storage(aliases.into_storage());
        if let Err(e) = owners.set_alias(caller_key, alias) {
            self.storage = owners.into_storage();
            return Err(RegistryError::Storage(e));
        }
        self.storage = owners.into_storage();
        self.aliases = Ghost(self.aliases@.insert(alias@, (caller@, opt_view(created.avatar_url))));
        self.owners = Ghost(self.owners@.insert(caller@, alias@));
        assert(self@ =~= create_spec(old_self@, caller@, alias@, opt_view(created.avatar_url)).0);
        Ok(created)
    }

    /// Releases `alias`; only its owner may do so.
    pub fn destroy(&mut self, caller: &String, alias: &String) -> (r: Result<ResponseStatus, RegistryError>)
        requires
            old(self).wf(),
        ensures
            final(self).wf(),
            (final(self)@, r) == destroy_spec(old(self)@, caller@, alias@),
    {
        broadcast use group_entry_keys;

        let alias_key = alias.as_str().as_bytes();
        let caller_key = caller.as_str().as_bytes();
        let record = match AliasesReadonlyStorage::from_storage(&self.storage).get_alias(alias_key) {
            Ok(Some(record)) => record,
            Ok(None) => return Err(RegistryError::AliasNotFound),
            Err(e) => return Err(RegistryError::Storage(e)),
        };
        if !record.human_address.eq(caller) {
            return Err(RegistryError::NotOwner);
        }
        let ghost old_self = *self;
        let mut storage = new_storage();
        core::mem::swap(&mut storage, &mut self.storage);
        let mut aliases = AliasesStorage::from_storage(storage);
        aliases.remove_alias(alias_key);
        let mut owners = AddressesAliasesStorage::from_storage(aliases.into_storage());
        owners.remove_alias(caller_key);
        self.storage = owners.into_storage();
        self.aliases = Ghost(self.aliases@.remove(alias@));
        self.owners = Ghost(self.owners@.remove(caller@));
        assert(self@ =~= destroy_spec(old_self@, caller@, alias@).0);
        Ok(ResponseStatus::Success)
    }

    /// Looks a record up by alias (`search_type` "alias") or by owner address ("address").
    pub fn search(&self, search_type: &String, search_value: &String) -> (r: Result<SearchResponse, RegistryError>)
        requires
            self.wf(),
        ensures
            search_result(r) == search_spec(self@, search_type@, search_value@),
    {
        proof {
            reveal_strlit("alias");
            reveal_strlit("address");
            assert(alias_kind().len() != address_kind().len());
        }
        let by_alias = String::from_str("alias");
        let by_address = String::from_str("address");
        assert(by_alias@ =~= alias_kind());
        assert(by_address@ =~= address_kind());
        if search_type.eq(&by_alias) {
            let key = search_value.as_str().as_bytes();
            match AliasesReadonlyStorage::from_storage(&self.storage).get_alias(key) {
                Ok(Some(record)) => Ok(SearchResponse {
                    kind: by_alias,
                    attributes: AliasAttributes {
                        alias: search_value.clone(),
                        avatar_url: record.avatar_url,
                        address: record.human_address,
                    },
                }),
                Ok(None) => Err(RegistryError::AliasNotFound),
                Err(e) => Err(RegistryError::Storage(e)),
            }
        } else if search_type.eq(&by_address) {
            let alias = match AddressesAliasesReadonlyStorage::from_storage(&self.storage).get_alias(
                search_value,
            ) {
                Ok(Some(alias)) => alias,
                Ok(None) => return Err(RegistryError::AliasNotFound),
                Err(e) => return Err(RegistryError::Storage(e)),
            };
            match AliasesReadonlyStorage::from_storage(&self.storage).get_alias(alias.as_str().as_bytes()) {
                Ok(Some(record)) => Ok(SearchResponse {
                    kind: by_address,
                    attributes: AliasAttributes {
                        alias,
                        avatar_url: record.avatar_url,
                        address: record.human_address,
                    },
                }),
                Ok(None) => Err(RegistryError::InternalInconsistency),
                Err(e) => Err(RegistryError::Storage(e)),
            }
        } else {
            Err(RegistryError::UnsupportedSearchType)
        }
    }

    /// Runs a command of `caller`: `Create` answers with the new alias's attributes,
    /// `Destroy` with `Success`.
    pub fn handle(&mut self, caller: &String, msg: HandleMsg) -> (r: Result<HandleAnswer, RegistryError>)
        requires
            old(self).wf(),
        ensures
            final(self).wf(),
            match msg {
                HandleMsg::Create { alias, avatar_url } => {
                    let (m, res) = create_spec(old(self)@, caller@, alias@, opt_view(avatar_url));
                    &&& final(self)@ == m
                    &&& match res {
                        Ok(v) => r matches Ok(HandleAnswer::Create { alias: attrs }) && attrs.alias@
                            == alias@ && (attrs.address@, opt_view(attrs.avatar_url)) == v,
                        Err(e) => r == Err::<HandleAnswer, RegistryError>(e),
                    }
                },
                HandleMsg::Destroy { alias } => {
                    let (m, res) = destroy_spec(old(self)@, caller@, alias@);
                    &&& final(self)@ == m
                    &&& match res {
                        Ok(status) => r == Ok::<HandleAnswer, RegistryError>(
                            HandleAnswer::Destroy { status },
                        ),
                        Err(e) => r == Err::<HandleAnswer, RegistryError>(e),
                    }
                },
            },
    {
        match msg {
            HandleMsg::Create { alias, avatar_url } => match self.create(caller, &alias, avatar_url) {
                Ok(record) => Ok(
                    HandleAnswer::Create {
                        alias: AliasAttributes {
                            alias,
                            avatar_url: record.avatar_url,
                            address: record.human_address,
                        },
                    },
                ),
                Err(e) => Err(e),
            },
            HandleMsg::Destroy { alias } => match self.destroy(caller, &alias) {
                Ok(status) => Ok(HandleAnswer::Destroy { status }),
                Err(e) => Err(e),
            },
        }
    }

    /// Answers a read-only request.
    pub fn query(&self, msg: &QueryMsg) -> (r: Result<SearchResponse, RegistryError>)
        requires
            self.wf(),
        ensures
            match msg {
                QueryMsg::Search { search_type, search_value } => search_result(r) == search_spec(
                    self@,
                    search_type@,
                    search_value@,
                ),
            },
    {
        match msg {
            QueryMsg::Search { search_type, search_value } => self.search(search_type, search_value),
        }
    }
}


/// In every registry that `new`, `create` and `destroy` reach, each owner entry names an
/// alias whose record has that owner, each record's owner has an entry naming that alias,
/// and no two addresses own the same alias.
pub proof fn lemma_indexes_consistent(r: &Registry)
    requires
        r.wf(),
    ensures
        indexes_agree(r@.aliases, r@.owners),
        owners_unique(r@.owners),
{
    assert forall|d1: Seq<char>, d2: Seq<char>|
        #![trigger r@.owners[d1], r@.owners[d2]]
        r@.owners.contains_key(d1) && r@.owners.contains_key(d2) && r@.owners[d1] == r@.owners[d2]
            implies d1 == d2 by {
        assert(r@.aliases[r@.owners[d1]].0 == d1);
    }
}

/// Creating an alias for an address that owns none, then destroying it as that address,
/// gives back the registry as it was, storage included.
pub proof fn lemma_create_destroy_round_trip(
    r: &Registry,
    caller: Seq<char>,
    alias: Seq<char>,
    avatar: Option<Seq<char>>,
)
    requires
        r.wf(),
        !r@.aliases.contains_key(alias),
        !r@.owners.contains_key(caller),
    ensures
        create_spec(r@, caller, alias, avatar).1 == Ok::<RecordView, RegistryError>((caller, avatar)),
        destroy_spec(create_spec(r@, caller, alias, avatar).0, caller, alias) == (
            r@,
            Ok::<ResponseStatus, RegistryError>(ResponseStatus::Success),
        ),
{
    broadcast use group_entry_keys;

    let m = r@;
    let m1 = create_spec(m, caller, alias, avatar).0;
    let m2 = destroy_spec(m1, caller, alias).0;
    assert(!m.stored.contains_key(alias_entry(alias)));
    assert(!m.stored.contains_key(owner_entry(caller)));
    assert(m2.aliases =~= m.aliases);
    assert(m2.owners =~= m.owners);
    assert(m2.stored =~= m.stored);
}

/// Once `owner` holds `alias`, no other address can claim it, and `owner` can claim no
/// second alias; neither attempt changes the registry.
pub proof fn lemma_conflicts_rejected(
    r: &Registry,
    owner: Seq<char>,
    other: Seq<char>,
    alias: Seq<char>,
    other_alias: Seq<char>,
    avatar: Option<Seq<char>>,
)
    requires
        r.wf(),
        r@.aliases.contains_key(alias),
        r@.aliases[alias].0 == owner,
    ensures
        create_spec(r@, other, alias, avatar) == (r@, Err::<RecordView, RegistryError>(
            RegistryError::AliasTaken,
        )),
        !r@.aliases.contains_key(other_alias) ==> create_spec(r@, owner, other_alias, avatar) == (
            r@,
            Err::<RecordView, RegistryError>(RegistryError::AddressAlreadyHasAlias),
        ),
{
}

/// Only the owner of an alias can destroy it: anyone else is refused and nothing changes.
pub proof fn lemma_destroy_needs_owner(r: &Registry, caller: Seq<char>, alias: Seq<char>)
    requires
        r.wf(),
        r@.aliases.contains_key(alias),
        r@.aliases[alias].0 != caller,
    ensures
        destroy_spec(r@, caller, alias) == (r@, Err::<ResponseStatus, RegistryError>(
            RegistryError::NotOwner,
        )),
{
}

/// After a successful `create`, searching by the alias and by the owner's address finds
/// the same alias and the same record.
pub proof fn lemma_search_equivalence(
    r: &Registry,
    caller: Seq<char>,
    alias: Seq<char>,
    avatar: Option<Seq<char>>,
)
    requires
        r.wf(),
        !r@.aliases.contains_key(alias),
        !r@.owners.contains_key(caller),
    ensures
        ({
            let m = create_spec(r@, caller, alias, avatar).0;
            &&& search_spec(m, alias_kind(), alias) == Ok::<
                (Seq<char>, Seq<char>, RecordView),
                RegistryError,
            >((alias_kind(), alias, (caller, avatar)))
            &&& search_spec(m, address_kind(), caller) == Ok::<
                (Seq<char>, Seq<char>, RecordView),
                RegistryError,
            >((address_kind(), alias, (caller, avatar)))
        }),
{
    assert(alias_kind().len() != address_kind().len());
}

/// A search of any kind other than "alias" or "address" is refused, whatever the registry
/// holds.
pub proof fn lemma_unknown_search_type(m: RegistryModel, kind: Seq<char>, value: Seq<char>)
    requires
        kind != alias_kind(),
        kind != address_kind(),
    ensures
        search_spec(m, kind, value) == Err::<(Seq<char>, Seq<char>, RecordView), RegistryError>(
            RegistryError::UnsupportedSearchType,
        ),
{
}

} // verus!
