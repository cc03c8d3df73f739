//! The persisted records — the administrator, the registry and the contract's
//! version — and the storage calls that read and write them.

use vstd::prelude::*;
use crate::error::ContractError;

verus! {

/// Contract storage, as `cosmwasm_std` keeps it in memory. Its contents are
/// spoken of through `admin_of`, `registry_of`, `listing_of` and
/// `version_of`.
#[verifier::external_type_specification]
#[verifier::external_body]
pub struct ExMemoryStorage(cosmwasm_std::MemoryStorage);

/// What reading the record under the key `admin` gives: the administrator
/// that it decodes to, `NotFound` where there is no such record, `Storage`
/// where it does not decode to an address.
pub uninterp spec fn admin_of(s: cosmwasm_std::MemoryStorage) -> Result<Seq<char>, ContractError>;

/// The registry kept under the namespace `collections`: its keys are the
/// collections that have a record there, and each is mapped to the minter
/// that its record decodes to, or to the empty identity where the record does
/// not decode to an address.
pub uninterp spec fn registry_of(s: cosmwasm_std::MemoryStorage) -> Map<Seq<char>, Seq<char>>;

/// What reading the record under the key `contract_info` gives: the contract
/// name and version that it decodes to, `NotFound` where there is no such
/// record, `Storage` where it does not decode.
pub uninterp spec fn version_of(s: cosmwasm_std::MemoryStorage) -> Result<
    (Seq<char>, Seq<char>),
    ContractError,
>;

/// What walking the namespace `collections` in ascending order gives: every
/// record as a pair of collection and minter, or `None` where some record
/// there does not decode.
pub uninterp spec fn listing_of(s: cosmwasm_std::MemoryStorage) -> Option<
    Seq<(Seq<char>, Seq<char>)>,
>;

/// One registered collection and the minter resolved for it.
#[derive(Clone, Debug, PartialEq, Eq)]
pub struct RegistryItem {
    pub minter: String,
    pub cw721: String,
}

impl RegistryItem {
    /// The entry as a pair: the collection, then its minter.
    pub open spec fn view(&self) -> (Seq<char>, Seq<char>) {
        (self.cw721@, self.minter@)
    }

    /// An entry for `cw721` with the given `minter`.
    pub fn new(cw721: String, minter: String) -> (item: Self)
        ensures
            item@ == (cw721@, minter@),
    {
        Self { cw721, minter }
    }
}

/// The order of two identities: `a` comes strictly before `b` when, at the
/// first position where they differ, `a` has the smaller code point, or when
/// `a` is a proper prefix of `b`.
pub open spec fn lex_lt(a: Seq<char>, b: Seq<char>) -> bool
    decreases a.len(),
{
    if b.len() == 0 {
        false
    } else if a.len() == 0 {
        true
    } else if a[0] != b[0] {
        (a[0] as u32) < (b[0] as u32)
    } else {
        lex_lt(a.skip(1), b.skip(1))
    }
}

/// The pairs that a vector of entries holds, each string by its view.
pub open spec fn pairs_of(v: Seq<(String, String)>) -> Seq<(Seq<char>, Seq<char>)> {
    Seq::new(v.len(), |i: int| (v[i].0@, v[i].1@))
}

/// `listing` enumerates `registry` in ascending order of its keys: the keys
/// ascend strictly, every pair is an entry of the registry, and every key of
/// the registry occurs.
pub open spec fn is_listing_of(
    listing: Seq<(Seq<char>, Seq<char>)>,
    registry: Map<Seq<char>, Seq<char>>,
) -> bool {
    &&& forall|i: int, j: int|
        0 <= i < j < listing.len() ==> lex_lt(#[trigger] listing[i].0, #[trigger] listing[j].0)
    &&& forall|i: int|
        0 <= i < listing.len() ==> registry.contains_pair(
            (#[trigger] listing[i]).0,
            listing[i].1,
        )
    &&& forall|k: Seq<char>| #[trigger]
        registry.contains_key(k) ==> exists|i: int|
            0 <= i < listing.len() && (#[trigger] listing[i]).0 == k
}

/// Reads the administrator with `cw_storage_plus::Item::load` under the key
/// `admin`. What comes back is what `admin_of` names: the administrator, or
/// the failure, a missing record as `NotFound` and any other as `Storage`.
#[verifier::external_body]
pub(crate) fn load_admin(store: &cosmwasm_std::MemoryStorage) -> (r: Result<String, ContractError>)
    ensures
        match r {
            Ok(admin) => admin_of(*store) matches Ok(stored) && stored == admin@,
            Err(e) => admin_of(*store) matches Err(failure) && failure == e,
        },
{
    match cw_storage_plus::Item::<cosmwasm_std::Addr>::new("admin").load(store) {
        Ok(admin) => Ok(admin.into_string()),
        Err(cosmwasm_std::StdError::NotFound { .. }) => Err(ContractError::NotFound),
        Err(_) => Err(ContractError::Storage),
    }
}

/// Writes the administrator with `cw_storage_plus::Item::save` under the key
/// `admin`. Encoding an address cannot fail, so the call succeeds; afterwards
/// the record decodes to `admin`, and the registry, its listing and the
/// version record are as before.
#[verifier::external_body]
pub(crate) fn save_admin(store: &mut cosmwasm_std::MemoryStorage, admin: &String) -> (r: Result<
    (),
    ContractError,
>)
    ensures
        r is Ok,
        match admin_of(*final(store)) {
            Ok(written) => written == admin@,
            Err(_) => false,
        },
        registry_of(*final(store)) == registry_of(*old(store)),
        listing_of(*final(store)) == listing_of(*old(store)),
        version_of(*final(store)) == version_of(*old(store)),
{
    cw_storage_plus::Item::<cosmwasm_std::Addr>::new("admin")
        .save(store, &cosmwasm_std::Addr::unchecked(admin.clone()))
        .map_err(|_| ContractError::Storage)
}

/// Writes one entry with `cw_storage_plus::Map::save` under the namespace
/// `collections`. Encoding an address cannot fail, so the call succeeds;
/// afterwards the registry maps `cw721` to `minter` and is otherwise as
/// before, as are the administrator and the version record. The new record
/// decodes, so a registry that could be listed before can be listed after.
#[verifier::external_body]
pub(crate) fn save_entry(
    store: &mut cosmwasm_std::MemoryStorage,
    cw721: &String,
    minter: &String,
) -> (r: Result<(), ContractError>)
    ensures
        r is Ok,
        registry_of(*final(store)) == registry_of(*old(store)).insert(cw721@, minter@),
        listing_of(*old(store)) is Some ==> listing_of(*final(store)) is Some,
        admin_of(*final(store)) == admin_of(*old(store)),
        version_of(*final(store)) == version_of(*old(store)),
{
    cw_storage_plus::Map::<cosmwasm_std::Addr, cosmwasm_std::Addr>::new("collections")
        .save(
            store,
            cosmwasm_std::Addr::unchecked(cw721.clone()),
            &cosmwasm_std::Addr::unchecked(minter.clone()),
        )
        .map_err(|_| ContractError::Storage)
}

/// Reads one entry with `cw_storage_plus::Map::load`. A minter that comes
/// back is the one that the registry holds for `cw721`; the call fails where
/// the registry has no such key, and otherwise only where the record does not
/// decode, which `registry_of` shows as the empty identity.
#[verifier::external_body]
pub(crate) fn load_entry(store: &cosmwasm_std::MemoryStorage, cw721: &String) -> (r: Result<
    String,
    ContractError,
>)
    ensures
        match r {
            Ok(minter) => registry_of(*store).contains_pair(cw721@, minter@),
            Err(_) => registry_of(*store).contains_key(cw721@) ==> registry_of(*store)[cw721@]
                == Seq::<char>::empty(),
        },
        !registry_of(*store).contains_key(cw721@) ==> r is Err,
{
    cw_storage_plus::Map::<cosmwasm_std::Addr, cosmwasm_std::Addr>::new("collections")
        .load(store, cosmwasm_std::Addr::unchecked(cw721.clone()))
        .map(|minter| minter.into_string())
        .map_err(|_| ContractError::Storage)
}

/// Deletes one entry with `cw_storage_plus::Map::remove`: afterwards the
/// registry lacks the key `cw721` and is otherwise as before, as are the
/// administrator and the version record. A registry that could be listed
/// before can be listed after.
#[verifier::external_body]
pub(crate) fn remove_entry(store: &mut cosmwasm_std::MemoryStorage, cw721: &String)
    ensures
        registry_of(*final(store)) == registry_of(*old(store)).remove(cw721@),
        listing_of(*old(store)) is Some ==> listing_of(*final(store)) is Some,
        admin_of(*final(store)) == admin_of(*old(store)),
        version_of(*final(store)) == version_of(*old(store)),
{
    cw_storage_plus::Map::<cosmwasm_std::Addr, cosmwasm_std::Addr>::new("collections")
        .remove(store, cosmwasm_std::Addr::unchecked(cw721.clone()))
}

/// Asks with `cw_storage_plus::Map::has` whether a record exists for `cw721`.
#[verifier::external_body]
pub(crate) fn has_entry(store: &cosmwasm_std::MemoryStorage, cw721: &String) -> (found: bool)
    ensures
        found == registry_of(*store).contains_key(cw721@),
{
    cw_storage_plus::Map::<cosmwasm_std::Addr, cosmwasm_std::Addr>::new("collections")
        .has(store, cosmwasm_std::Addr::unchecked(cw721.clone()))
}

/// Walks the whole registry with `cw_storage_plus::Map::range`, ascending, and
/// collects it. What comes back is what `listing_of` names; the walk fails,
/// with `Storage`, where a record does not decode. Storage orders its keys
/// by their bytes, which for text is the order of `lex_lt`; so a listing
/// enumerates the registry in that order.
#[verifier::external_body]
pub(crate) fn scan_all(store: &cosmwasm_std::MemoryStorage) -> (r: Result<
    Vec<(String, String)>,
    ContractError,
>)
    ensures
        match r {
            Ok(items) => listing_of(*store) == Some(pairs_of(items@)) && is_listing_of(
                pairs_of(items@),
                registry_of(*store),
            ),
            Err(e) => listing_of(*store) is None && e == ContractError::Storage,
        },
{
    cw_storage_plus::Map::<cosmwasm_std::Addr, cosmwasm_std::Addr>::new("collections")
        .range(store, None, None, cosmwasm_std::Order::Ascending)
        .map(|entry| entry.map(|(cw721, minter)| (cw721.into_string(), minter.into_string())))
        .collect::<Result<Vec<(String, String)>, cosmwasm_std::StdError>>()
        .map_err(|_| ContractError::Storage)
}

/// Reads the contract's name and version with `cw2::get_contract_version`.
/// What comes back is what `version_of` names: name and version, or the
/// failure, a missing record as `NotFound` and any other as `Storage`.
#[verifier::external_body]
pub(crate) fn load_version(store: &cosmwasm_std::MemoryStorage) -> (r: Result<
    (String, String),
    ContractError,
>)
    ensures
        match r {
            Ok(info) => version_of(*store) matches Ok(stored) && stored == (info.0@, info.1@),
            Err(e) => version_of(*store) matches Err(failure) && failure == e,
        },
{
    match cw2::get_contract_version(store) {
        Ok(info) => Ok((info.contract, info.version)),
        Err(cosmwasm_std::StdError::NotFound { .. }) => Err(ContractError::NotFound),
        Err(_) => Err(ContractError::Storage),
    }
}

/// Writes the contract's name and version with `cw2::set_contract_version`.
/// Encoding two strings cannot fail, so the call succeeds; afterwards the
/// record decodes to them, and the administrator, the registry and its
/// listing are as before.
#[verifier::external_body]
pub(crate) fn save_version(
    store: &mut cosmwasm_std::MemoryStorage,
    name: &str,
    version: &str,
) -> (r: Result<(), ContractError>)
    ensures
        r is Ok,
        match version_of(*final(store)) {
            Ok(written) => written == (name@, version@),
            Err(_) => false,
        },
        admin_of(*final(store)) == admin_of(*old(store)),
        registry_of(*final(store)) == registry_of(*old(store)),
        listing_of(*final(store)) == listing_of(*old(store)),
{
    cw2::set_contract_version(store, name, version).map_err(|_| ContractError::Storage)
}

/// Compares two strings with std's `<`, which orders strings by their bytes
/// and so by their code points.
#[verifier::external_body]
pub(crate) fn string_lt(a: &String, b: &String) -> (less: bool)
    ensures
        less == lex_lt(a@, b@),
{
    a < b
}

} // verus!
