//! The ordered maps and sets of the `indexmap` crate that the library keeps
//! its rules and picks in, and what their methods do to what they hold.

use vstd::prelude::*;
use indexmap::{IndexMap, IndexSet};
use crate::loot_filter::FilterRule;

verus! {

#[verifier::external_type_specification]
#[verifier::external_body]
#[verifier::reject_recursive_types(K)]
#[verifier::reject_recursive_types(V)]
#[verifier::reject_recursive_types(S)]
pub struct ExIndexMap<K, V, S>(IndexMap<K, V, S>);

#[verifier::external_type_specification]
#[verifier::external_body]
#[verifier::reject_recursive_types(T)]
#[verifier::reject_recursive_types(S)]
pub struct ExIndexSet<T, S>(IndexSet<T, S>);

/// The entries of a rule map, in its order: each rule under its identifier.
pub uninterp spec fn rule_entries(m: IndexMap<u128, FilterRule>) -> Seq<(u128, FilterRule)>;

/// The values of an index set, in its order.
pub uninterp spec fn index_set_values(s: IndexSet<usize>) -> Seq<usize>;

/// An empty map (`IndexMap::new`).
#[verifier::external_body]
pub(crate) fn rules_new() -> (m: IndexMap<u128, FilterRule>)
    ensures
        rule_entries(m) == Seq::<(u128, FilterRule)>::empty(),
{
    IndexMap::new()
}

/// The number of entries (`IndexMap::len`).
#[verifier::external_body]
pub(crate) fn rules_len(m: &IndexMap<u128, FilterRule>) -> (n: usize)
    ensures
        n == rule_entries(*m).len(),
{
    m.len()
}

/// The position of the entry under `key` (`IndexMap::get_index_of`).
#[verifier::external_body]
pub(crate) fn rules_index_of(m: &IndexMap<u128, FilterRule>, key: u128) -> (r: Option<usize>)
    ensures
        match r {
            Some(i) => i < rule_entries(*m).len() && rule_entries(*m)[i as int].0 == key,
            None => forall|i: int|
                0 <= i < rule_entries(*m).len() ==> rule_entries(*m)[i].0 != key,
        },
{
    m.get_index_of(&key)
}

/// The entry at position `i` (`IndexMap::get_index`).
#[verifier::external_body]
pub(crate) fn rules_at(m: &IndexMap<u128, FilterRule>, i: usize) -> (r: Option<(&u128, &FilterRule)>)
    ensures
        match r {
            Some((k, v)) => i < rule_entries(*m).len() && rule_entries(*m)[i as int] == (*k, *v),
            None => i >= rule_entries(*m).len(),
        },
{
    m.get_index(i)
}

/// The value at position `i`, to change it in place (`IndexMap` indexed by
/// a position, which panics on a position out of bounds); the entry keeps
/// its key and position.
#[verifier::external_body]
pub(crate) fn rules_value_mut(m: &mut IndexMap<u128, FilterRule>, i: usize) -> (v: &mut FilterRule)
    requires
        i < rule_entries(*old(m)).len(),
    ensures
        *v == rule_entries(*old(m))[i as int].1,
        rule_entries(*final(m)) == rule_entries(*old(m)).update(
            i as int,
            (rule_entries(*old(m))[i as int].0, *final(v)),
        ),
{
    &mut m[i]
}

/// Puts `value` under `key` (`IndexMap::insert`): an entry already under
/// `key` keeps its position and takes the new value, whose old value is
/// returned; otherwise the entry goes last and `None` is returned.
#[verifier::external_body]
pub(crate) fn rules_insert(m: &mut IndexMap<u128, FilterRule>, key: u128, value: FilterRule) -> (r: Option<
    FilterRule,
>)
    ensures
        match r {
            Some(old_value) => exists|i: int|
                0 <= i < rule_entries(*old(m)).len() && rule_entries(*old(m))[i] == (key, old_value)
                    && rule_entries(*final(m)) == rule_entries(*old(m)).update(i, (key, value)),
            None => (forall|i: int|
                0 <= i < rule_entries(*old(m)).len() ==> rule_entries(*old(m))[i].0 != key)
                && rule_entries(*final(m)) == rule_entries(*old(m)).push((key, value)),
        },
{
    m.insert(key, value)
}

/// Removes the entry under `key`, shifting the later ones
/// (`IndexMap::shift_remove`); returns its value, or `None` (and changes
/// nothing) where no entry is under `key`.
#[verifier::external_body]
pub(crate) fn rules_shift_remove(m: &mut IndexMap<u128, FilterRule>, key: u128) -> (r: Option<FilterRule>)
    ensures
        match r {
            Some(old_value) => exists|i: int|
                0 <= i < rule_entries(*old(m)).len() && rule_entries(*old(m))[i] == (key, old_value)
                    && rule_entries(*final(m)) == rule_entries(*old(m)).remove(i),
            None => (forall|i: int|
                0 <= i < rule_entries(*old(m)).len() ==> rule_entries(*old(m))[i].0 != key)
                && rule_entries(*final(m)) == rule_entries(*old(m)),
        },
{
    m.shift_remove(&key)
}

/// Swaps the entries at positions `a` and `b` (`IndexMap::swap_indices`,
/// which panics on a position out of bounds).
#[verifier::external_body]
pub(crate) fn rules_swap(m: &mut IndexMap<u128, FilterRule>, a: usize, b: usize)
    requires
        a < rule_entries(*old(m)).len(),
        b < rule_entries(*old(m)).len(),
    ensures
        rule_entries(*final(m)) == rule_entries(*old(m)).update(
            a as int,
            rule_entries(*old(m))[b as int],
        ).update(b as int, rule_entries(*old(m))[a as int]),
{
    m.swap_indices(a, b)
}

/// An empty set (`IndexSet::new`).
#[verifier::external_body]
pub(crate) fn index_set_new() -> (s: IndexSet<usize>)
    ensures
        index_set_values(s) == Seq::<usize>::empty(),
{
    IndexSet::new()
}

/// The number of values (`IndexSet::len`).
#[verifier::external_body]
pub(crate) fn index_set_len(s: &IndexSet<usize>) -> (n: usize)
    ensures
        n == index_set_values(*s).len(),
{
    s.len()
}

/// Whether `v` is in the set (`IndexSet::contains`).
#[verifier::external_body]
pub(crate) fn index_set_contains(s: &IndexSet<usize>, v: usize) -> (b: bool)
    ensures
        b == index_set_values(*s).contains(v),
{
    s.contains(&v)
}

/// Adds `v` last unless it is already in the set (`IndexSet::insert`),
/// returning whether it was added.
#[verifier::external_body]
pub(crate) fn index_set_insert(s: &mut IndexSet<usize>, v: usize) -> (added: bool)
    ensures
        added == !index_set_values(*old(s)).contains(v),
        added ==> index_set_values(*final(s)) == index_set_values(*old(s)).push(v),
        !added ==> index_set_values(*final(s)) == index_set_values(*old(s)),
{
    s.insert(v)
}

/// Removes `v`, shifting the later values (`IndexSet::shift_remove`),
/// returning whether it was there.
#[verifier::external_body]
pub(crate) fn index_set_shift_remove(s: &mut IndexSet<usize>, v: usize) -> (removed: bool)
    ensures
        removed == index_set_values(*old(s)).contains(v),
        removed ==> exists|i: int|
            0 <= i < index_set_values(*old(s)).len() && index_set_values(*old(s))[i] == v
                && index_set_values(*final(s)) == index_set_values(*old(s)).remove(i),
        !removed ==> index_set_values(*final(s)) == index_set_values(*old(s)),
{
    s.shift_remove(&v)
}

/// Removes the value at position `i`, shifting the later values
/// (`IndexSet::shift_remove_index`); `None` (and no change) where there is
/// no such position.
#[verifier::external_body]
pub(crate) fn index_set_shift_remove_index(s: &mut IndexSet<usize>, i: usize) -> (r: Option<usize>)
    ensures
        match r {
            Some(v) => i < index_set_values(*old(s)).len() && v == index_set_values(*old(s))[i as int]
                && index_set_values(*final(s)) == index_set_values(*old(s)).remove(i as int),
            None => i >= index_set_values(*old(s)).len() && index_set_values(*final(s))
                == index_set_values(*old(s)),
        },
{
    s.shift_remove_index(i)
}

/// The value at position `i` (`IndexSet::get_index`).
#[verifier::external_body]
pub(crate) fn index_set_at(s: &IndexSet<usize>, i: usize) -> (r: Option<&usize>)
    ensures
        match r {
            Some(v) => i < index_set_values(*s).len() && *v == index_set_values(*s)[i as int],
            None => i >= index_set_values(*s).len(),
        },
{
    s.get_index(i)
}

} // verus!
