//! The registry's operations: setting it up, the three changes that only the
//! administrator may make, the three questions that anyone may ask, and the
//! version check of a migration.

use vstd::prelude::*;
use crate::error::ContractError;
use crate::msg::{
    entries_of, ExecuteMsg, InstantiateMsg, MigrateMsg, Page, PageView, QueryMsg, QueryResponse,
    Reply, Response,
};
use crate::state::{
    admin_of, has_entry, is_listing_of, lex_lt, listing_of, load_admin, load_entry, load_version,
    pairs_of, registry_of, remove_entry, save_admin, save_entry, save_version, scan_all,
    string_lt, version_of, RegistryItem,
};

verus! {

/// The name under which this contract records its version.
pub const CONTRACT_NAME: &'static str = "ambur-registry";

/// The version that this contract records.
pub const CONTRACT_VERSION: &'static str = "0.1.0";

/// The number of entries on a page where the question names none.
pub const LIMIT: u32 = 50;

/// The largest number of entries on a page.
pub const MAX_LIMIT: u32 = 100;

/// The page that a listing yields for a limit and a page number. The limit
/// is capped at `MAX_LIMIT`; the page starts at `limit * page` and ends
/// `limit` entries later or at the end of the listing. A page that starts at
/// or beyond its end is empty. `total` is the number of entries on the page.
pub open spec fn page_spec(listing: Seq<(Seq<char>, Seq<char>)>, limit: u32, page: u32) -> PageView {
    let capped: int = if limit <= MAX_LIMIT { limit as int } else { MAX_LIMIT as int };
    let start: int = capped * page;
    let end: int = if start + capped <= listing.len() { start + capped } else { listing.len() as int };
    if start >= end {
        PageView { registered: Seq::empty(), page, total: 0 }
    } else {
        PageView { registered: listing.subrange(start, end), page, total: (end - start) as u32 }
    }
}

/// Cuts one page out of a listing of the registry.
pub fn page_of(items: &Vec<(String, String)>, limit: u32, page: u32) -> (result: Page)
    ensures
        result@ == page_spec(pairs_of(items@), limit, page),
        result.registered@.len() == result.total,
{
    let capped: u64 = if limit <= MAX_LIMIT { limit as u64 } else { MAX_LIMIT as u64 };
    assert(capped * (page as u64) <= 100 * 0xffff_ffff) by (nonlinear_arith)
        requires
            capped <= 100,
            page <= 0xffff_ffff,
    ;
    let start: u64 = capped * (page as u64);
    let count: usize = items.len();
    let end: u64 = if start + capped <= count as u64 { start + capped } else { count as u64 };
    let mut registered: Vec<RegistryItem> = Vec::new();
    if start >= end {
        assert(entries_of(registered@) =~= Seq::empty());
        return Page { registered, page, total: 0 };
    }
    let mut i: u64 = start;
    while i < end
        invariant
            start <= i <= end <= count,
            count == items@.len(),
            registered@.len() == i - start,
            forall|j: int|
                0 <= j < registered@.len() ==> (#[trigger] registered@[j])@ == pairs_of(items@)[
                    start + j],
        decreases end - i,
    {
        let entry = &items[i as usize];
        registered.push(RegistryItem::new(entry.0.clone(), entry.1.clone()));
        i = i + 1;
    }
    assert(entries_of(registered@) =~= pairs_of(items@).subrange(start as int, end as int));
    Page { registered, page, total: (end - start) as u32 }
}

/// Who administers a registry, and what it holds.
pub ghost struct RegistryState {
    pub admin: Option<Seq<char>>,
    pub registry: Map<Seq<char>, Seq<char>>,
}

/// The state that storage holds. It has no administrator where none can be
/// read.
pub open spec fn state_of(store: cosmwasm_std::MemoryStorage) -> RegistryState {
    RegistryState {
        admin: match admin_of(store) {
            Ok(admin) => Some(admin),
            Err(_) => None,
        },
        registry: registry_of(store),
    }
}

/// What a change does where the administrator sends it: the administrator
/// and the registry afterwards, and the attributes reported.
pub ghost struct Effect {
    pub admin: Seq<char>,
    pub registry: Map<Seq<char>, Seq<char>>,
    pub attributes: Seq<(Seq<char>, Seq<char>)>,
}

/// The effect of a message that the administrator `admin` sends to a registry
/// holding `registry`, where the lookup of a collection's minter gave
/// `resolved` (`None`: it failed). Registering sets or replaces the entry,
/// and fails where the lookup did; unregistering removes the entry and
/// reports the minter that it held, empty where there was none; setting the
/// administrator replaces it.
pub open spec fn effect_of(
    admin: Seq<char>,
    registry: Map<Seq<char>, Seq<char>>,
    msg: ExecuteMsg,
    resolved: Option<String>,
) -> Result<Effect, ContractError> {
    match msg {
        ExecuteMsg::Register(m) => match resolved {
            None => Err(ContractError::RemoteLookupFailed),
            Some(minter) => Ok(
                Effect {
                    admin,
                    registry: registry.insert(m.cw721@, minter@),
                    attributes: seq![
                        ("action"@, "register"@),
                        ("cw721"@, m.cw721@),
                        ("minter"@, minter@),
                    ],
                },
            ),
        },
        ExecuteMsg::Unregister(m) => Ok(
            Effect {
                admin,
                registry: registry.remove(m.cw721@),
                attributes: seq![
                    ("action"@, "unregister"@),
                    ("cw721"@, m.cw721@),
                    (
                        "minter"@,
                        if registry.contains_key(m.cw721@) {
                            registry[m.cw721@]
                        } else {
                            Seq::empty()
                        },
                    ),
                ],
            },
        ),
        ExecuteMsg::SetAdmin(m) => Ok(
            Effect {
                admin: m.admin@,
                registry,
                attributes: seq![("action"@, "set_admin"@), ("admin"@, m.admin@)],
            },
        ),
    }
}

/// The state after `sender` has sent a message: that of the message's effect
/// where `sender` is the administrator and the message succeeds, the state
/// before in every other case.
pub open spec fn next_state(
    state: RegistryState,
    sender: Seq<char>,
    msg: ExecuteMsg,
    resolved: Option<String>,
) -> RegistryState {
    if state.admin == Some(sender) {
        match effect_of(sender, state.registry, msg, resolved) {
            Ok(effect) => RegistryState { admin: Some(effect.admin), registry: effect.registry },
            Err(_) => state,
        }
    } else {
        state
    }
}

/// Carries out one change to the registry on behalf of `sender`. `resolved`
/// is what the lookup of the collection's minter gave, `None` where it
/// failed; only registering reads it.
///
/// Every failure leaves storage as it was. Where no administrator can be
/// read the call fails as the read does; a sender other than the
/// administrator is turned down as `Unauthorized`; the administrator's
/// message has the effect that `effect_of` describes. A registry that could
/// be listed before can be listed after.
pub fn execute(
    store: &mut cosmwasm_std::MemoryStorage,
    sender: &String,
    msg: ExecuteMsg,
    resolved: Option<String>,
) -> (r: Result<Response, ContractError>)
    ensures
        r is Err ==> *final(store) == *old(store),
        state_of(*final(store)) == next_state(state_of(*old(store)), sender@, msg, resolved),
        version_of(*final(store)) == version_of(*old(store)),
        listing_of(*old(store)) is Some ==> listing_of(*final(store)) is Some,
        match admin_of(*old(store)) {
            Err(e) => r == Err::<Response, ContractError>(e),
            Ok(admin) => if admin != sender@ {
                r == Err::<Response, ContractError>(ContractError::Unauthorized)
            } else {
                match effect_of(admin, registry_of(*old(store)), msg, resolved) {
                    Err(e) => r == Err::<Response, ContractError>(e),
                    Ok(effect) => r matches Ok(response) && pairs_of(response.attributes@)
                        == effect.attributes && response.registered@.len() == 0,
                }
            },
        },
{
    let admin = match load_admin(store) {
        Ok(admin) => admin,
        Err(e) => { return Err(e); },
    };
    if *sender != admin {
        return Err(ContractError::Unauthorized);
    }
    match msg {
        ExecuteMsg::Register(m) => {
            let minter = match resolved {
                Some(minter) => minter,
                None => { return Err(ContractError::RemoteLookupFailed); },
            };
            match save_entry(store, &m.cw721, &minter) {
                Ok(()) => {},
                Err(e) => { return Err(e); },
            }
            let response = Response::new().add_attribute("action", "register".to_owned())
                .add_attribute("cw721", m.cw721).add_attribute("minter", minter);
            assert(pairs_of(response.attributes@) =~= effect_of(
                admin@,
                registry_of(*old(store)),
                msg,
                resolved,
            ).unwrap().attributes);
            Ok(response)
        },
        ExecuteMsg::Unregister(m) => {
            let minter = match load_entry(store, &m.cw721) {
                Ok(minter) => minter,
                Err(_) => String::new(),
            };
            remove_entry(store, &m.cw721);
            let response = Response::new().add_attribute("action", "unregister".to_owned())
                .add_attribute("cw721", m.cw721).add_attribute("minter", minter);
            assert(pairs_of(response.attributes@) =~= effect_of(
                admin@,
                registry_of(*old(store)),
                msg,
                resolved,
            ).unwrap().attributes);
            Ok(response)
        },
        ExecuteMsg::SetAdmin(m) => {
            match save_admin(store, &m.admin) {
                Ok(()) => {},
                Err(e) => { return Err(e); },
            }
            let response = Response::new().add_attribute("action", "set_admin".to_owned())
                .add_attribute("admin", m.admin);
            assert(pairs_of(response.attributes@) =~= effect_of(
                admin@,
                registry_of(*old(store)),
                msg,
                resolved,
            ).unwrap().attributes);
            Ok(response)
        },
    }
}

/// Whether the lookups of the first `count` collections all gave a minter.
pub open spec fn all_resolved(count: int, resolved: Seq<Option<String>>) -> bool {
    count <= resolved.len() && forall|i: int| 0 <= i < count ==> (#[trigger] resolved[i]) is Some
}

/// The collections of an instantiation, each with the minter that its lookup
/// gave, in the order of the collections.
pub open spec fn resolved_pairs(registry: Seq<String>, resolved: Seq<Option<String>>) -> Seq<
    (Seq<char>, Seq<char>),
> {
    Seq::new(registry.len(), |i: int| (registry[i]@, resolved[i].unwrap()@))
}

/// The registry after the given entries have been written to it one after
/// another: a later entry replaces an earlier one for the same collection.
pub open spec fn insert_all(
    registry: Map<Seq<char>, Seq<char>>,
    entries: Seq<(Seq<char>, Seq<char>)>,
) -> Map<Seq<char>, Seq<char>>
    decreases entries.len(),
{
    if entries.len() == 0 {
        registry
    } else {
        insert_all(registry, entries.drop_last()).insert(entries.last().0, entries.last().1)
    }
}

/// Sets the registry up. The administrator is the one that the message
/// names, or else `sender`. `resolved` holds, for each collection of the
/// message in order, what the lookup of its minter gave (`None`, or no
/// element at all: it failed).
///
/// Where a lookup failed the call fails with `RemoteLookupFailed` and writes
/// nothing. Otherwise it writes the administrator, each collection with its
/// minter in the order given, and the contract's name and version, and
/// reports the entries that it wrote.
pub fn instantiate(
    store: &mut cosmwasm_std::MemoryStorage,
    sender: &String,
    msg: InstantiateMsg,
    resolved: &Vec<Option<String>>,
) -> (r: Result<Response, ContractError>)
    ensures
        !all_resolved(msg.registry@.len() as int, resolved@) ==> (r == Err::<
            Response,
            ContractError,
        >(ContractError::RemoteLookupFailed) && *final(store) == *old(store)),
        all_resolved(msg.registry@.len() as int, resolved@) ==> {
            &&& r matches Ok(response)
            &&& pairs_of(response.attributes@) == seq![("action"@, "instantiate"@)]
            &&& entries_of(response.registered@) == resolved_pairs(msg.registry@, resolved@)
            &&& admin_of(*final(store)) == Ok::<Seq<char>, ContractError>(
                match msg.admin {
                    Some(admin) => admin@,
                    None => sender@,
                },
            )
            &&& listing_of(*old(store)) is Some ==> listing_of(*final(store)) is Some
            &&& registry_of(*final(store)) == insert_all(
                registry_of(*old(store)),
                resolved_pairs(msg.registry@, resolved@),
            )
            &&& version_of(*final(store)) == Ok::<(Seq<char>, Seq<char>), ContractError>(
                (CONTRACT_NAME@, CONTRACT_VERSION@),
            )
        },
{
    let count: usize = msg.registry.len();
    if resolved.len() < count {
        return Err(ContractError::RemoteLookupFailed);
    }
    let mut checked: usize = 0;
    while checked < count
        invariant
            checked <= count <= resolved@.len(),
            count == msg.registry@.len(),
            forall|i: int| 0 <= i < checked ==> (#[trigger] resolved@[i]) is Some,
        decreases count - checked,
    {
        if resolved[checked].is_none() {
            return Err(ContractError::RemoteLookupFailed);
        }
        checked = checked + 1;
    }
    let admin: &String = match &msg.admin {
        Some(admin) => admin,
        None => sender,
    };
    match save_admin(store, admin) {
        Ok(()) => {},
        Err(e) => { return Err(e); },
    }
    let ghost pairs = resolved_pairs(msg.registry@, resolved@);
    let mut registered: Vec<RegistryItem> = Vec::new();
    let mut i: usize = 0;
    while i < count
        invariant
            i <= count <= resolved@.len(),
            count == msg.registry@.len(),
            all_resolved(count as int, resolved@),
            pairs == resolved_pairs(msg.registry@, resolved@),
            admin_of(*store) == Ok::<Seq<char>, ContractError>(admin@),
            listing_of(*old(store)) is Some ==> listing_of(*store) is Some,
            registry_of(*store) == insert_all(registry_of(*old(store)), pairs.take(i as int)),
            entries_of(registered@) == pairs.take(i as int),
        decreases count - i,
    {
        let cw721: String = msg.registry[i].clone();
        let minter: String = match &resolved[i] {
            Some(minter) => minter.clone(),
            None => { return Err(ContractError::RemoteLookupFailed); },
        };
        match save_entry(store, &cw721, &minter) {
            Ok(()) => {},
            Err(e) => { return Err(e); },
        }
        registered.push(RegistryItem::new(cw721, minter));
        proof {
            assert(pairs.take(i + 1).drop_last() =~= pairs.take(i as int));
            assert(entries_of(registered@) =~= pairs.take(i + 1));
        }
        i = i + 1;
    }
    match save_version(store, CONTRACT_NAME, CONTRACT_VERSION) {
        Ok(()) => {},
        Err(e) => { return Err(e); },
    }
    let mut response = Response::new().add_attribute("action", "instantiate".to_owned());
    response.registered = registered;
    proof {
        assert(pairs.take(count as int) =~= pairs);
        assert(pairs_of(response.attributes@) =~= seq![("action"@, "instantiate"@)]);
    }
    Ok(response)
}

/// Answers a question about the registry; storage is only read.
///
/// `Config` gives the administrator, and fails as the read does where none
/// can be read. `Registered` says whether the registry has the collection as
/// a key. `Registry` gives the page that `page_spec` cuts out of the
/// registry's ascending listing, with the defaults `LIMIT` and page 0; it
/// fails with `Storage` where the registry cannot be listed.
pub fn query(store: &cosmwasm_std::MemoryStorage, msg: QueryMsg) -> (r: Result<
    QueryResponse,
    ContractError,
>)
    ensures
        match msg {
            QueryMsg::Config {  } => match admin_of(*store) {
                Ok(admin) => r matches Ok(QueryResponse::Config(found)) && found@ == admin,
                Err(e) => r == Err::<QueryResponse, ContractError>(e),
            },
            QueryMsg::Registered { cw721 } => r matches Ok(QueryResponse::Registered(found))
                && found == registry_of(*store).contains_key(cw721@),
            QueryMsg::Registry { page, limit } => match listing_of(*store) {
                Some(listing) => is_listing_of(listing, registry_of(*store)) && (r matches Ok(
                    QueryResponse::Registry(found),
                ) && found@ == page_spec(listing, limit.unwrap_or(LIMIT), page.unwrap_or(0))),
                None => r == Err::<QueryResponse, ContractError>(ContractError::Storage),
            },
        },
{
    match msg {
        QueryMsg::Config {  } => match load_admin(store) {
            Ok(admin) => Ok(QueryResponse::Config(admin)),
            Err(e) => Err(e),
        },
        QueryMsg::Registry { page, limit } => {
            let limit: u32 = match limit {
                Some(limit) => limit,
                None => LIMIT,
            };
            let page: u32 = match page {
                Some(page) => page,
                None => 0,
            };
            match scan_all(store) {
                Ok(items) => {
                    let found = page_of(&items, limit, page);
                    assert(found@ == page_spec(pairs_of(items@), limit, page));
                    Ok(QueryResponse::Registry(found))
                },
                Err(_) => Err(ContractError::Storage),
            }
        },
        QueryMsg::Registered { cw721 } => Ok(QueryResponse::Registered(has_entry(store, &cw721))),
    }
}

/// Takes the host's report on a sub-message: a failed one is turned down as
/// `Unauthorized`, a successful one is answered with an empty response.
pub fn reply(msg: Reply) -> (r: Result<Response, ContractError>)
    ensures
        msg.succeeded ==> (r matches Ok(response) && response.attributes@.len() == 0
            && response.registered@.len() == 0),
        !msg.succeeded ==> r == Err::<Response, ContractError>(ContractError::Unauthorized),
{
    if msg.succeeded {
        Ok(Response::new())
    } else {
        Err(ContractError::Unauthorized)
    }
}

/// Whether a stored contract name and version allow a migration to this
/// contract: the name is this contract's, and the version comes strictly
/// before this contract's in the order of `lex_lt`.
pub open spec fn may_migrate_from(name: Seq<char>, version: Seq<char>) -> bool {
    name == CONTRACT_NAME@ && lex_lt(version, CONTRACT_VERSION@)
}

/// Moves the stored version forward to this contract's. It fails as the read
/// does where no version record can be read, and with `InvalidInput` where the record
/// names another contract or a version that is not older; a failure leaves
/// storage as it was. No entry of the registry is touched.
pub fn migrate(store: &mut cosmwasm_std::MemoryStorage, msg: MigrateMsg) -> (r: Result<
    Response,
    ContractError,
>)
    ensures
        r is Err ==> *final(store) == *old(store),
        state_of(*final(store)) == state_of(*old(store)),
        listing_of(*final(store)) == listing_of(*old(store)),
        match version_of(*old(store)) {
            Err(e) => r == Err::<Response, ContractError>(e),
            Ok((name, version)) => if may_migrate_from(name, version) {
                &&& r matches Ok(response)
                &&& response.attributes@.len() == 0
                &&& response.registered@.len() == 0
                &&& version_of(*final(store)) == Ok::<(Seq<char>, Seq<char>), ContractError>(
                    (CONTRACT_NAME@, CONTRACT_VERSION@),
                )
            } else {
                r == Err::<Response, ContractError>(ContractError::InvalidInput)
            },
        },
{
    let stored = match load_version(store) {
        Ok(stored) => stored,
        Err(e) => { return Err(e); },
    };
    let name: String = CONTRACT_NAME.to_owned();
    let version: String = CONTRACT_VERSION.to_owned();
    if stored.0 != name {
        return Err(ContractError::InvalidInput);
    }
    if !string_lt(&stored.1, &version) {
        return Err(ContractError::InvalidInput);
    }
    match save_version(store, CONTRACT_NAME, CONTRACT_VERSION) {
        Ok(()) => {},
        Err(e) => { return Err(e); },
    }
    Ok(Response::new())
}

/// The question that a collection is asked to learn its minter: the address
/// to ask, and the message to send it.
#[derive(Clone, Debug, PartialEq, Eq)]
pub struct MinterQuery {
    pub contract_addr: String,
    pub msg: Vec<u8>,
}

/// The message that asks a collection for its minter: the text
/// `{"minter":{}}`, byte by byte.
pub open spec fn minter_question() -> Seq<u8> {
    seq![123u8, 34u8, 109u8, 105u8, 110u8, 116u8, 101u8, 114u8, 34u8, 58u8, 123u8, 125u8, 125u8]
}

/// Encodes the `Minter` question of `cw721_base` with
/// `cosmwasm_std::to_json_binary`. The question has no fields, so its
/// encoding is always the same text, the one that `minter_question` spells
/// out.
#[verifier::external_body]
pub(crate) fn encode_minter_question() -> (payload: Vec<u8>)
    ensures
        payload@ == minter_question(),
{
    cosmwasm_std::to_json_binary(&cw721_base::QueryMsg::<Option<cosmwasm_std::Empty>>::Minter {})
        .map(|binary| binary.0)
        .unwrap_or_default()
}

/// The lookup to make for a collection before it is registered: the
/// collection itself is asked for its minter.
pub fn minter_query(cw721: &String) -> (lookup: MinterQuery)
    ensures
        lookup.contract_addr@ == cw721@,
        lookup.msg@ == minter_question(),
{
    MinterQuery { contract_addr: cw721.clone(), msg: encode_minter_question() }
}

/// Whether `sender` administers the registry that storage holds.
pub open spec fn is_admin(store: cosmwasm_std::MemoryStorage, sender: Seq<char>) -> bool {
    admin_of(store) matches Ok(admin) && admin == sender
}

/// The lookup that has to be made before a message is executed, if any:
/// only a registration sent by the administrator needs one, for the
/// collection that it names. Every other message is executed, or turned
/// down, without a lookup.
pub fn pending_lookup(store: &cosmwasm_std::MemoryStorage, sender: &String, msg: &ExecuteMsg) -> (lookup:
    Option<MinterQuery>)
    ensures
        lookup is Some <==> (is_admin(*store, sender@) && msg is Register),
        lookup matches Some(question) ==> (msg matches ExecuteMsg::Register(m)
            && question.contract_addr@ == m.cw721@ && question.msg@ == minter_question()),
{
    match msg {
        ExecuteMsg::Register(m) => match load_admin(store) {
            Ok(admin) => if *sender == admin {
                Some(minter_query(&m.cw721))
            } else {
                None
            },
            Err(_) => None,
        },
        _ => None,
    }
}

} // verus!
