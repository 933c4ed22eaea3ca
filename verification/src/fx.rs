//! The hash maps and sets of `rustc_hash`. Their contracts are taken on
//! faith: each says of one method what the documentation of std says.

use vstd::prelude::*;
use vstd::std_specs::hash::obeys_key_model;
use rustc_hash::FxHashMap;
use rustc_hash::FxHashSet;
use std::hash::Hash;

verus! {

/// The hasher of `rustc_hash`. Its hash maps and sets are those of std
/// with this hasher, which has no seed: equal keys hash alike in every
/// process.
#[verifier::external_type_specification]
#[verifier::external_body]
pub struct ExFxHasher(rustc_hash::FxHasher);

/// The builder of std that makes a hasher by `Default`.
#[verifier::external_type_specification]
#[verifier::external_body]
#[verifier::reject_recursive_types(H)]
pub struct ExBuildHasherDefault<H>(std::hash::BuildHasherDefault<H>);

/// `FxHashMap::default`: a new map, which holds nothing.
#[verifier::external_body]
pub(crate) fn fx_map_new<K: Hash + Eq, V>() -> (m: FxHashMap<K, V>)
    ensures
        m@.dom() == Set::<K>::empty(),
{
    FxHashMap::default()
}

/// `HashMap::len` on an `FxHashMap`: the number of keys.
#[verifier::external_body]
pub(crate) fn fx_map_len<K: Hash + Eq, V>(m: &FxHashMap<K, V>) -> (r: usize)
    requires
        obeys_key_model::<K>(),
    ensures
        r == m@.dom().len(),
{
    m.len()
}

/// `HashMap::insert` on an `FxHashMap`: the key now maps to the value, the
/// other keys are as before, and the value that the key had comes back.
#[verifier::external_body]
pub(crate) fn fx_map_insert<K: Hash + Eq, V>(m: &mut FxHashMap<K, V>, k: K, v: V) -> (r: Option<V>)
    requires
        obeys_key_model::<K>(),
    ensures
        final(m)@ == old(m)@.insert(k, v),
        r == (if old(m)@.contains_key(k) {
            Some(old(m)@[k])
        } else {
            None
        }),
{
    m.insert(k, v)
}

/// `HashMap::get` on an `FxHashMap`: the value of the key, if it has one.
#[verifier::external_body]
pub(crate) fn fx_map_get<'a, K: Hash + Eq, V>(m: &'a FxHashMap<K, V>, k: &K) -> (r: Option<&'a V>)
    requires
        obeys_key_model::<K>(),
    ensures
        r == (if m@.contains_key(*k) {
            Some(&m@[*k])
        } else {
            None
        }),
{
    m.get(k)
}

/// `HashMap::get_mut` on an `FxHashMap`: a reference to the key's value,
/// if it has one; what is written through it becomes the key's value,
/// and the other keys are as before.
#[verifier::external_body]
pub(crate) fn fx_map_get_mut<'a, K: Hash + Eq, V>(m: &'a mut FxHashMap<K, V>, k: &K) -> (r: Option<&'a mut V>)
    requires
        obeys_key_model::<K>(),
    ensures
        r.is_some() == old(m)@.contains_key(*k),
        match r {
            Some(v) => *v == old(m)@[*k] && final(m)@ == old(m)@.insert(*k, *final(v)),
            None => final(m)@ == old(m)@,
        },
{
    m.get_mut(k)
}

/// `HashMap::keys` on an `FxHashMap`: every key once, in the order in
/// which the map is walked, of which nothing is said.
#[verifier::external_body]
pub(crate) fn fx_map_keys<K: Hash + Eq + Copy, V>(m: &FxHashMap<K, V>) -> (r: Vec<K>)
    requires
        obeys_key_model::<K>(),
    ensures
        r@.no_duplicates(),
        r@.to_set() == m@.dom(),
{
    m.keys().copied().collect()
}

/// `FxHashSet::default`: a new set, which holds nothing.
#[verifier::external_body]
pub(crate) fn fx_set_new<K: Hash + Eq>() -> (s: FxHashSet<K>)
    ensures
        s@ == Set::<K>::empty(),
{
    FxHashSet::default()
}

/// `HashSet::insert` on an `FxHashSet`: the key is in the set afterwards,
/// and the result tells whether it was new.
#[verifier::external_body]
pub(crate) fn fx_set_insert<K: Hash + Eq>(s: &mut FxHashSet<K>, k: K) -> (r: bool)
    requires
        obeys_key_model::<K>(),
    ensures
        final(s)@ == old(s)@.insert(k),
        r == !old(s)@.contains(k),
{
    s.insert(k)
}

} // verus!
