//! One direction of the presence registry: a concurrent map from a name to
//! the set of names filed under it, kept in a `DashMap` of `DashSet`s.
//!
//! The functions of this module are the calls into `dashmap`. Their contracts
//! are taken from its source and are not proved here. Each takes the map by
//! `&mut` where it changes what the map holds, so that no two of them run on
//! one map at a time; none of them panics.

use vstd::prelude::*;
use dashmap::DashMap;
use dashmap::DashSet;

verus! {

/// `dashmap::DashMap`, of which nothing is seen here but its name.
#[verifier::external_type_specification]
#[verifier::external_body]
#[verifier::reject_recursive_types(K)]
#[verifier::reject_recursive_types(V)]
#[verifier::reject_recursive_types(S)]
pub struct ExDashMap<K, V, S>(DashMap<K, V, S>);

/// `dashmap::DashSet`, of which nothing is seen here but its name.
#[verifier::external_type_specification]
#[verifier::external_body]
#[verifier::reject_recursive_types(K)]
#[verifier::reject_recursive_types(S)]
pub struct ExDashSet<K, S>(DashSet<K, S>);

/// What an index holds: for each key that is present, the set of members
/// filed under it.
pub uninterp spec fn index_entries(index: DashMap<String, DashSet<String>>) -> Map<Seq<char>, Set<Seq<char>>>;

/// The index that holds no key.
pub open spec fn no_entries() -> Map<Seq<char>, Set<Seq<char>>> {
    Map::empty()
}

/// The members filed under `key`: none where the key is absent.
pub open spec fn members_at(entries: Map<Seq<char>, Set<Seq<char>>>, key: Seq<char>) -> Set<Seq<char>> {
    if entries.dom().contains(key) {
        entries[key]
    } else {
        Set::empty()
    }
}

/// `DashMap::default`: a map that holds no key.
#[verifier::external_body]
pub(crate) fn index_new() -> (index: DashMap<String, DashSet<String>>)
    ensures
        index_entries(index) == no_entries(),
{
    DashMap::default()
}

/// `DashMap::entry`, `Entry::or_insert_with` and `DashSet::insert`: the set
/// under `key` is created empty where the key was absent, and `member` is put
/// into it. Every other key keeps its set.
#[verifier::external_body]
pub(crate) fn index_add(index: &mut DashMap<String, DashSet<String>>, key: &str, member: &str)
    ensures
        index_entries(*final(index)) == index_entries(*old(index)).insert(
            key@,
            members_at(index_entries(*old(index)), key@).insert(member@),
        ),
    no_unwind
{
    index.entry(key.to_owned()).or_insert_with(DashSet::new).insert(member.to_owned());
}

/// What is left of an index once `member` is struck from the set under
/// `key`. The key stays, even with an empty set; an absent key changes nothing.
pub open spec fn struck(entries: Map<Seq<char>, Set<Seq<char>>>, key: Seq<char>, member: Seq<char>) -> Map<Seq<char>, Set<Seq<char>>> {
    if entries.dom().contains(key) {
        entries.insert(key, entries[key].remove(member))
    } else {
        entries
    }
}

/// Whether the set under `key` is empty: `None` where the key is absent.
pub open spec fn vacancy(entries: Map<Seq<char>, Set<Seq<char>>>, key: Seq<char>) -> Option<bool> {
    if entries.dom().contains(key) {
        Some(entries[key].is_empty())
    } else {
        None
    }
}

/// The names that a vector of strings spells, in its order.
pub open spec fn names(strings: Seq<String>) -> Seq<Seq<char>> {
    strings.map_values(|s: String| s@)
}

/// `DashMap::get_mut` and `DashSet::remove`: where `key` is present, `member`
/// leaves its set, and the key stays even if the set is now empty.
#[verifier::external_body]
pub(crate) fn index_strike(index: &mut DashMap<String, DashSet<String>>, key: &str, member: &str)
    ensures
        index_entries(*final(index)) == struck(index_entries(*old(index)), key@, member@),
    no_unwind
{
    index.get_mut(key).map(|set| set.remove(member));
}

/// `DashMap::get` and `DashSet::is_empty`: whether the set under `key` holds
/// nothing, or `None` where the key is absent.
#[verifier::external_body]
pub(crate) fn index_vacant(index: &DashMap<String, DashSet<String>>, key: &str) -> (vacant: Option<bool>)
    ensures
        vacant == vacancy(index_entries(*index), key@),
    no_unwind
{
    index.get(key).map(|set| set.is_empty())
}

/// `DashMap::remove`: `key` and its set leave the map; an absent key changes
/// nothing.
#[verifier::external_body]
pub(crate) fn index_drop(index: &mut DashMap<String, DashSet<String>>, key: &str)
    ensures
        index_entries(*final(index)) == index_entries(*old(index)).remove(key@),
    no_unwind
{
    index.remove(key);
}

/// `DashMap::get`, then `DashSet::clone` and `DashSet::into_iter`: a copy of
/// the members under `key`, each exactly once, in the order in which the set
/// is walked; nothing where the key is absent. The order is not fixed.
#[verifier::external_body]
pub(crate) fn index_members(index: &DashMap<String, DashSet<String>>, key: &str) -> (members: Vec<String>)
    ensures
        names(members@).no_duplicates(),
        names(members@).to_set() == members_at(index_entries(*index), key@),
{
    index.get(key).map(|set| set.clone().into_iter().collect()).unwrap_or_default()
}

} // verus!
