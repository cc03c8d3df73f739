//! What holds of the registry's operations taken together, stated over the
//! same models that the operations' own contracts use.

use vstd::prelude::*;
use crate::contract::{
    may_migrate_from, next_state, page_spec, RegistryState, CONTRACT_VERSION, MAX_LIMIT,
};
use crate::msg::ExecuteMsg;
use crate::state::{is_listing_of, lex_lt};

verus! {

/// The state after `sender` has sent the given messages one after another,
/// each with the outcome of its lookup.
pub open spec fn replay(
    state: RegistryState,
    sender: Seq<char>,
    calls: Seq<(ExecuteMsg, Option<String>)>,
) -> RegistryState
    decreases calls.len(),
{
    if calls.len() == 0 {
        state
    } else {
        next_state(replay(state, sender, calls.drop_last()), sender, calls.last().0, calls.last().1)
    }
}

/// The minter that a registry holds for a collection, if it holds one.
pub open spec fn entry_at(registry: Map<Seq<char>, Seq<char>>, cw721: Seq<char>) -> Option<
    Seq<char>,
> {
    if registry.contains_key(cw721) {
        Some(registry[cw721])
    } else {
        None
    }
}

/// What a run of registrations and unregistrations leaves for one
/// collection, given what was there before: the minter of the last
/// registration of it that resolved, unless an unregistration of it came
/// later; calls for other collections, and registrations whose lookup
/// failed, change nothing.
pub open spec fn net_entry(
    before: Option<Seq<char>>,
    calls: Seq<(ExecuteMsg, Option<String>)>,
    cw721: Seq<char>,
) -> Option<Seq<char>>
    decreases calls.len(),
{
    if calls.len() == 0 {
        before
    } else {
        let earlier = net_entry(before, calls.drop_last(), cw721);
        match calls.last() {
            (ExecuteMsg::Register(m), Some(minter)) => if m.cw721@ == cw721 {
                Some(minter@)
            } else {
                earlier
            },
            (ExecuteMsg::Unregister(m), _) => if m.cw721@ == cw721 {
                None
            } else {
                earlier
            },
            _ => earlier,
        }
    }
}

/// Replaying any run of registrations and unregistrations sent by the
/// administrator leaves, for every collection, exactly the net effect of the
/// run: a registration sets or replaces the entry, an unregistration removes
/// it, and unregistering what is not there changes nothing. The
/// administrator stays the same.
pub proof fn replay_is_net_effect(
    state: RegistryState,
    sender: Seq<char>,
    calls: Seq<(ExecuteMsg, Option<String>)>,
    cw721: Seq<char>,
)
    requires
        state.admin == Some(sender),
        forall|i: int|
            0 <= i < calls.len() ==> !((#[trigger] calls[i]).0 is SetAdmin),
    ensures
        replay(state, sender, calls).admin == state.admin,
        entry_at(replay(state, sender, calls).registry, cw721) == net_entry(
            entry_at(state.registry, cw721),
            calls,
            cw721,
        ),
    decreases calls.len(),
{
    if calls.len() > 0 {
        let earlier = calls.drop_last();
        assert forall|i: int| 0 <= i < earlier.len() implies !((#[trigger] earlier[i]).0
            is SetAdmin) by {
            assert(earlier[i] == calls[i]);
        }
        replay_is_net_effect(state, sender, earlier, cw721);
        assert(!(calls[calls.len() - 1].0 is SetAdmin));
    }
}

/// Unregistering a collection that the registry does not hold leaves the
/// registry as it was.
pub proof fn unregister_unknown_is_noop(
    state: RegistryState,
    sender: Seq<char>,
    msg: ExecuteMsg,
    resolved: Option<String>,
)
    requires
        msg matches ExecuteMsg::Unregister(m) && !state.registry.contains_key(m.cw721@),
    ensures
        next_state(state, sender, msg, resolved) == state,
{
    match msg {
        ExecuteMsg::Unregister(m) => {
            assert(state.registry.remove(m.cw721@) =~= state.registry);
        },
        _ => {},
    }
}

/// A message from anyone but the administrator changes nothing.
pub proof fn stranger_changes_nothing(
    state: RegistryState,
    sender: Seq<char>,
    msg: ExecuteMsg,
    resolved: Option<String>,
)
    requires
        state.admin != Some(sender),
    ensures
        next_state(state, sender, msg, resolved) == state,
{
}

/// A registry that has an administrator keeps one, whatever is sent to it.
pub proof fn admin_is_never_lost(
    state: RegistryState,
    sender: Seq<char>,
    msg: ExecuteMsg,
    resolved: Option<String>,
)
    requires
        state.admin is Some,
    ensures
        next_state(state, sender, msg, resolved).admin is Some,
{
}

/// Setting the same administrator twice leaves the state that setting it
/// once leaves, whoever sends the two messages.
pub proof fn set_admin_twice_is_once(
    state: RegistryState,
    sender: Seq<char>,
    msg: ExecuteMsg,
    first: Option<String>,
    second: Option<String>,
)
    requires
        msg is SetAdmin,
    ensures
        next_state(next_state(state, sender, msg, first), sender, msg, second) == next_state(
            state,
            sender,
            msg,
            first,
        ),
{
}

/// The limit that a page is cut with: the one asked for, but no more than
/// `MAX_LIMIT`.
pub open spec fn capped(limit: u32) -> int {
    if limit <= MAX_LIMIT {
        limit as int
    } else {
        MAX_LIMIT as int
    }
}

/// The smaller of two numbers.
pub open spec fn least(a: int, b: int) -> int {
    if a <= b {
        a
    } else {
        b
    }
}

/// A page is the part of the listing from `limit * page` to `limit * page +
/// limit`, both cut off at the listing's length, and `total` is the length
/// of that part, not of the listing. A page that starts at or beyond the end
/// of the listing is empty, with a `total` of 0.
pub proof fn page_is_slice(listing: Seq<(Seq<char>, Seq<char>)>, limit: u32, page: u32)
    ensures
        page_spec(listing, limit, page).registered == listing.subrange(
            least(capped(limit) * page, listing.len() as int),
            least(capped(limit) * page + capped(limit), listing.len() as int),
        ),
        page_spec(listing, limit, page).total == page_spec(listing, limit, page).registered.len(),
        page_spec(listing, limit, page).total <= capped(limit),
        page_spec(listing, limit, page).page == page,
        capped(limit) * page >= listing.len() ==> page_spec(listing, limit, page).registered.len()
            == 0 && page_spec(listing, limit, page).total == 0,
{
    let l = capped(limit);
    let start = l * page;
    assert(start >= 0) by (nonlinear_arith)
        requires
            l >= 0,
            page >= 0,
            start == l * page,
    ;
    let n = listing.len() as int;
    assert(page_spec(listing, limit, page).registered =~= listing.subrange(
        least(start, n),
        least(start + l, n),
    ));
}

/// No identity comes both before and after another, and none comes before
/// itself.
pub proof fn lex_lt_is_asymmetric(a: Seq<char>, b: Seq<char>)
    ensures
        !(lex_lt(a, b) && lex_lt(b, a)),
    decreases a.len(),
{
    if a.len() > 0 && b.len() > 0 && a[0] == b[0] {
        lex_lt_is_asymmetric(a.skip(1), b.skip(1));
    }
}

/// A listing without its last entry lists the registry without that entry's
/// collection.
pub proof fn listing_without_last(
    listing: Seq<(Seq<char>, Seq<char>)>,
    registry: Map<Seq<char>, Seq<char>>,
)
    requires
        is_listing_of(listing, registry),
        listing.len() > 0,
    ensures
        is_listing_of(listing.drop_last(), registry.remove(listing.last().0)),
{
    let shorter = listing.drop_last();
    let last = listing.last();
    let rest = registry.remove(last.0);
    assert forall|i: int, j: int| 0 <= i < j < shorter.len() implies lex_lt(
        #[trigger] shorter[i].0,
        #[trigger] shorter[j].0,
    ) by {
        assert(lex_lt(listing[i].0, listing[j].0));
    }
    assert forall|i: int| 0 <= i < shorter.len() implies rest.contains_pair(
        (#[trigger] shorter[i]).0,
        shorter[i].1,
    ) by {
        assert(lex_lt(listing[i].0, listing[listing.len() - 1].0));
        lex_lt_is_asymmetric(listing[i].0, last.0);
        assert(registry.contains_pair(listing[i].0, listing[i].1));
    }
    assert forall|k: Seq<char>| #[trigger] rest.contains_key(k) implies exists|i: int|
        0 <= i < shorter.len() && (#[trigger] shorter[i]).0 == k by {
        assert(registry.contains_key(k));
        let i = choose|i: int| 0 <= i < listing.len() && (#[trigger] listing[i]).0 == k;
        assert(shorter[i].0 == k);
    }
}

/// A registry has only one ascending listing: what a page holds is decided
/// by what the registry holds.
pub proof fn listing_is_unique(
    first: Seq<(Seq<char>, Seq<char>)>,
    second: Seq<(Seq<char>, Seq<char>)>,
    registry: Map<Seq<char>, Seq<char>>,
)
    requires
        is_listing_of(first, registry),
        is_listing_of(second, registry),
    ensures
        first == second,
    decreases first.len(),
{
    if first.len() == 0 {
        if second.len() > 0 {
            assert(registry.contains_pair(second[0].0, second[0].1));
            assert(registry.contains_key(second[0].0));
        }
        assert(first =~= second);
    } else {
        let a = first[first.len() - 1];
        assert(registry.contains_pair(a.0, a.1));
        assert(registry.contains_key(a.0));
        let j = choose|j: int| 0 <= j < second.len() && (#[trigger] second[j]).0 == a.0;
        let b = second[second.len() - 1];
        assert(registry.contains_pair(b.0, b.1));
        assert(registry.contains_key(b.0));
        let i = choose|i: int| 0 <= i < first.len() && (#[trigger] first[i]).0 == b.0;
        if j < second.len() - 1 {
            assert(lex_lt(second[j].0, second[second.len() - 1].0));
            if i < first.len() - 1 {
                assert(lex_lt(first[i].0, first[first.len() - 1].0));
            }
            lex_lt_is_asymmetric(a.0, b.0);
            assert(false);
        }
        assert(a == b);
        listing_without_last(first, registry);
        listing_without_last(second, registry);
        listing_is_unique(first.drop_last(), second.drop_last(), registry.remove(a.0));
        assert(first =~= first.drop_last().push(a));
        assert(second =~= second.drop_last().push(b));
    }
}

/// No contract migrates from its own version: the stored version has to come
/// strictly before.
pub proof fn own_version_does_not_migrate(name: Seq<char>)
    ensures
        !may_migrate_from(name, CONTRACT_VERSION@),
{
    lex_lt_is_asymmetric(CONTRACT_VERSION@, CONTRACT_VERSION@);
}

} // verus!
