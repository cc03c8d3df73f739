//! The messages that the registry takes and the answers that it gives.

use vstd::prelude::*;
use crate::state::{pairs_of, RegistryItem};

verus! {

/// Sets the registry up: the administrator, where it is not the sender, and
/// the collections to register from the start.
#[derive(Clone, Debug, PartialEq, Eq)]
pub struct InstantiateMsg {
    pub admin: Option<String>,
    pub registry: Vec<String>,
}

/// The operations that change the registry. Only the administrator may send
/// them.
#[derive(Clone, Debug, PartialEq, Eq)]
pub enum ExecuteMsg {
    Register(RegisterMsg),
    Unregister(UnregisterMsg),
    SetAdmin(SetAdminMsg),
}

/// Registers a collection under the minter that it names.
#[derive(Clone, Debug, PartialEq, Eq)]
pub struct RegisterMsg {
    pub cw721: String,
}

/// Removes a collection from the registry.
#[derive(Clone, Debug, PartialEq, Eq)]
pub struct UnregisterMsg {
    pub cw721: String,
}

/// Hands the registry over to another administrator.
#[derive(Clone, Debug, PartialEq, Eq)]
pub struct SetAdminMsg {
    pub admin: String,
}

/// Asks for a migration; it carries nothing.
#[derive(Clone, Copy, Debug, PartialEq, Eq)]
pub struct MigrateMsg {}

/// The outcome of a sub-message, as the host reports it back.
#[derive(Clone, Copy, Debug, PartialEq, Eq)]
pub struct Reply {
    pub id: u64,
    pub succeeded: bool,
}

/// What a page of the registry is, as a value: its entries as pairs of
/// collection and minter, the page's number and the number of its entries.
pub ghost struct PageView {
    pub registered: Seq<(Seq<char>, Seq<char>)>,
    pub page: u32,
    pub total: u32,
}

/// One page of the registry. `total` counts the entries of this page, not
/// those of the registry.
#[derive(Clone, Debug, PartialEq, Eq)]
pub struct Page {
    pub registered: Vec<RegistryItem>,
    pub page: u32,
    pub total: u32,
}

/// The entries of a vector of items, each as a pair of collection and minter.
pub open spec fn entries_of(items: Seq<RegistryItem>) -> Seq<(Seq<char>, Seq<char>)> {
    Seq::new(items.len(), |i: int| items[i]@)
}

impl Page {
    pub open spec fn view(&self) -> PageView {
        PageView { registered: entries_of(self.registered@), page: self.page, total: self.total }
    }
}

/// The questions that the registry answers.
#[derive(Clone, Debug, PartialEq, Eq)]
pub enum QueryMsg {
    /// Who is the administrator?
    Config {},
    /// One page of the registry, in ascending order of the collections. The
    /// page defaults to the first, the limit to 50, and no page holds more
    /// than 100 entries.
    Registry { page: Option<u32>, limit: Option<u32> },
    /// Is this collection registered?
    Registered { cw721: String },
}

/// The answer to a `QueryMsg`, one variant for each question.
#[derive(Clone, Debug, PartialEq, Eq)]
pub enum QueryResponse {
    Config(String),
    Registry(Page),
    Registered(bool),
}

/// What an operation reports on success: its attributes, in the order in
/// which they were set, and the entries registered at instantiation.
#[derive(Clone, Debug, PartialEq, Eq)]
pub struct Response {
    pub attributes: Vec<(String, String)>,
    pub registered: Vec<RegistryItem>,
}

impl Response {
    /// A response that reports nothing.
    pub fn new() -> (response: Self)
        ensures
            response.attributes@ == Seq::<(String, String)>::empty(),
            response.registered@ == Seq::<RegistryItem>::empty(),
    {
        Response { attributes: Vec::new(), registered: Vec::new() }
    }

    /// Adds one attribute after those already set.
    pub fn add_attribute(self, key: &str, value: String) -> (response: Self)
        ensures
            pairs_of(response.attributes@) == pairs_of(self.attributes@).push((key@, value@)),
            response.registered == self.registered,
    {
        let mut response = self;
        response.attributes.push((key.to_owned(), value));
        assert(pairs_of(response.attributes@) =~= pairs_of(self.attributes@).push(
            (key@, value@),
        ));
        response
    }
}

} // verus!
