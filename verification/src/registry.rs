//! The registry of active nodes: which identities are being supervised, and
//! under which binding.
//!
//! The registry is the one structure that supervisors share. A claim is an
//! insert-if-absent, and it is atomic because every operation that changes
//! the registry takes it by exclusive reference: supervisors that run side by
//! side reach it through a lock that they hold for one operation, and what
//! they do is then one claim or release after the other, in some order.

use crate::network::{Bless, BlessView};
use dashmap::DashMap;
use vstd::prelude::*;

verus! {

/// `dashmap::DashMap`, carried as it is: nothing is known of what is inside
/// one but through [`entries`].
#[verifier::external_type_specification]
#[verifier::external_body]
#[verifier::reject_recursive_types(K)]
#[verifier::reject_recursive_types(V)]
#[verifier::reject_recursive_types(S)]
pub struct ExDashMap<K, V, S>(DashMap<K, V, S>);

/// What a registry holds: each active identity with its binding.
pub type Entries = Map<Seq<char>, BlessView>;

/// The entries that a `DashMap` from identities to bindings holds.
pub uninterp spec fn entries(map: DashMap<String, Bless>) -> Entries;

/// One identity with the binding it is supervised under.
#[derive(Debug, PartialEq, Eq)]
pub struct ActiveEntry {
    pub identity: String,
    pub binding: Bless,
}

impl View for ActiveEntry {
    type V = (Seq<char>, BlessView);

    open spec fn view(&self) -> (Seq<char>, BlessView) {
        (self.identity@, self.binding@)
    }
}

/// The identities of a list of entries, in the list's order.
pub open spec fn identities(listing: Seq<ActiveEntry>) -> Seq<Seq<char>> {
    listing.map_values(|entry: ActiveEntry| entry.identity@)
}

/// `listing` enumerates `held`: every item is an entry of `held`, no identity
/// comes twice, and every identity of `held` comes once. The order is open.
pub open spec fn enumerates(listing: Seq<ActiveEntry>, held: Entries) -> bool {
    &&& forall|i: int|
        0 <= i < listing.len() ==> held.contains_pair(
            (#[trigger] listing[i]).identity@,
            listing[i].binding@,
        )
    &&& identities(listing).no_duplicates()
    &&& forall|identity: Seq<char>| #[trigger]
        held.dom().contains(identity) ==> identities(listing).contains(identity)
}

/// `DashMap::new`: the map it returns holds no entry.
#[verifier::external_body]
fn map_new() -> (map: DashMap<String, Bless>)
    ensures
        entries(map) == Entries::empty(),
{
    DashMap::new()
}

/// `DashMap::contains_key`: whether the map holds an entry under `key`.
#[verifier::external_body]
fn map_contains_key(map: &DashMap<String, Bless>, key: &str) -> (found: bool)
    ensures
        found == entries(*map).dom().contains(key@),
{
    map.contains_key(key)
}

/// `DashMap::insert`: afterwards the map holds `value` under `key` and is
/// otherwise as before. The value that `key` had before, if any, is returned.
#[verifier::external_body]
fn map_insert(map: &mut DashMap<String, Bless>, key: String, value: Bless) -> (previous: Option<
    Bless,
>)
    ensures
        entries(*final(map)) == entries(*old(map)).insert(key@, value@),
        previous is Some <==> entries(*old(map)).dom().contains(key@),
        previous matches Some(before) ==> before@ == entries(*old(map))[key@],
{
    map.insert(key, value)
}

/// `DashMap::remove`: afterwards the map holds nothing under `key` and is
/// otherwise as before. The entry that was removed, if any, is returned.
#[verifier::external_body]
fn map_remove(map: &mut DashMap<String, Bless>, key: &str) -> (removed: Option<(String, Bless)>)
    ensures
        entries(*final(map)) == entries(*old(map)).remove(key@),
        removed is Some <==> entries(*old(map)).dom().contains(key@),
        removed matches Some(pair) ==> pair.0@ == key@ && pair.1@ == entries(*old(map))[key@],
{
    map.remove(key)
}

/// `DashMap::iter`, each entry copied out as it is met: the list enumerates
/// the map's entries. The order in which the map is walked is not fixed.
#[verifier::external_body]
fn map_listing(map: &DashMap<String, Bless>) -> (listing: Vec<ActiveEntry>)
    ensures
        enumerates(listing@, entries(*map)),
{
    map.iter().map(
        |item| ActiveEntry { identity: item.key().clone(), binding: item.value().clone() },
    ).collect()
}

/// The registry of active nodes, kept in a concurrent map.
pub struct Registry {
    active_nodes: DashMap<String, Bless>,
}

/// What `try_claim` does to the entries: a pure insert-if-absent.
pub open spec fn claim(held: Entries, identity: Seq<char>, binding: BlessView) -> (Entries, bool) {
    if held.dom().contains(identity) {
        (held, false)
    } else {
        (held.insert(identity, binding), true)
    }
}

impl View for Registry {
    type V = Entries;

    closed spec fn view(&self) -> Entries {
        entries(self.active_nodes)
    }
}

impl Registry {
    /// A registry holds finitely many entries.
    pub open spec fn wf(&self) -> bool {
        self@.dom().finite()
    }

    /// A registry without entries.
    pub fn new() -> (registry: Registry)
        ensures
            registry.wf(),
            registry@ == Entries::empty(),
    {
        Registry { active_nodes: map_new() }
    }

    /// Whether `identity` is claimed.
    pub fn contains(&self, identity: &str) -> (found: bool)
        ensures
            found == self@.dom().contains(identity@),
    {
        map_contains_key(&self.active_nodes, identity)
    }

    /// Claims `identity` for `binding` if nobody holds it. Returns whether the
    /// claim was made; a refused claim changes nothing.
    pub fn try_claim(&mut self, identity: &str, binding: &Bless) -> (claimed: bool)
        requires
            old(self).wf(),
        ensures
            final(self).wf(),
            (final(self)@, claimed) == claim(old(self)@, identity@, binding@),
    {
        if map_contains_key(&self.active_nodes, identity) {
            false
        } else {
            let _ = map_insert(&mut self.active_nodes, identity.to_owned(), binding.clone());
            true
        }
    }

    /// Removes the entry of `identity`, whether or not there is one.
    pub fn release(&mut self, identity: &str)
        requires
            old(self).wf(),
        ensures
            final(self).wf(),
            final(self)@ == old(self)@.remove(identity@),
    {
        let _ = map_remove(&mut self.active_nodes, identity);
    }

    /// The entries held at this moment, each once, in no particular order.
    pub fn snapshot(&self) -> (listing: Vec<ActiveEntry>)
        requires
            self.wf(),
        ensures
            enumerates(listing@, self@),
            listing@.len() == self@.dom().len(),
    {
        let listing = map_listing(&self.active_nodes);
        proof {
            lemma_enumeration_len(listing@, self@);
        }
        listing
    }
}

/// A list that enumerates finitely many entries is as long as there are entries.
pub proof fn lemma_enumeration_len(listing: Seq<ActiveEntry>, held: Entries)
    requires
        held.dom().finite(),
        enumerates(listing, held),
    ensures
        listing.len() == held.dom().len(),
{
    let ids = identities(listing);
    assert(ids.to_set() =~= held.dom());
    ids.unique_seq_to_set();
}

/// What happens to the entries when `identity` is claimed once for each of
/// `bindings`, one claim after the other: the entries afterwards, and which
/// of the claims were made.
pub open spec fn claim_each(held: Entries, identity: Seq<char>, bindings: Seq<BlessView>) -> (
    Entries,
    Seq<bool>,
)
    decreases bindings.len(),
{
    if bindings.len() == 0 {
        (held, Seq::empty())
    } else {
        let first = claim(held, identity, bindings[0]);
        let rest = claim_each(first.0, identity, bindings.drop_first());
        (rest.0, seq![first.1] + rest.1)
    }
}

/// Claims exclude each other: of any number of claims for one identity, the
/// first is made if and only if the identity was free, and every later one
/// is refused. The identity is held afterwards under the binding that held
/// it before, or else under the first claim's.
pub proof fn law_exclusive_claims(held: Entries, identity: Seq<char>, bindings: Seq<BlessView>)
    requires
        bindings.len() >= 1,
    ensures
        claim_each(held, identity, bindings).1.len() == bindings.len(),
        claim_each(held, identity, bindings).1[0] == !held.dom().contains(identity),
        forall|i: int|
            1 <= i < bindings.len() ==> !(#[trigger] claim_each(held, identity, bindings).1[i]),
        claim_each(held, identity, bindings).0 == claim(held, identity, bindings[0]).0,
        claim_each(held, identity, bindings).0.dom().contains(identity),
    decreases bindings.len(),
{
    let first = claim(held, identity, bindings[0]);
    let rest = claim_each(first.0, identity, bindings.drop_first());
    assert(claim_each(held, identity, bindings) == (rest.0, seq![first.1] + rest.1));
    if bindings.len() > 1 {
        law_exclusive_claims(first.0, identity, bindings.drop_first());
    }
}

/// A released identity is free again: once it has been released, the next
/// claim for it is made, whatever the registry held before.
pub proof fn law_reclaim_after_release(held: Entries, identity: Seq<char>, binding: BlessView)
    ensures
        claim(held.remove(identity), identity, binding) == (
            held.remove(identity).insert(identity, binding),
            true,
        ),
{
}

} // verus!
