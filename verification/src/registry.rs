//! The parameter registry: an order-preserving name-to-parameter mapping.
//!
//! The map itself is the `IndexMap` of the `indexmap` crate, used through
//! the trusted declarations below. Its contents are modelled as the
//! sequence of (name, parameter value) pairs in insertion order, and every
//! contract in this crate speaks of that sequence.

use crate::variant::{Variant, VariantV};
use vstd::prelude::*;

verus! {

#[verifier::external_type_specification]
#[verifier::external_body]
#[verifier::reject_recursive_types(K)]
#[verifier::reject_recursive_types(V)]
#[verifier::reject_recursive_types(S)]
pub struct ExIndexMap<K, V, S>(indexmap::IndexMap<K, V, S>);

/// The registry map type: parameter names to parameters, in insertion
/// order.
pub type VarMap = indexmap::IndexMap<String, Variant, std::collections::hash_map::RandomState>;

/// What a registry map holds: its (name, parameter) pairs in order.
pub uninterp spec fn map_entries(m: VarMap) -> Seq<(Seq<char>, VariantV)>;

/// True when `s` holds an entry named `k`.
pub open spec fn spec_has_key(s: Seq<(Seq<char>, VariantV)>, k: Seq<char>) -> bool {
    exists|i: int| 0 <= i < s.len() && s[i].0 == k
}

/// The position of the entry named `k`.
pub open spec fn spec_key_index(s: Seq<(Seq<char>, VariantV)>, k: Seq<char>) -> int {
    choose|i: int| 0 <= i < s.len() && s[i].0 == k
}

/// What inserting `(k, v)` yields: an existing name keeps its position
/// and takes the new value; a new name is appended.
pub open spec fn spec_entries_insert(
    s: Seq<(Seq<char>, VariantV)>,
    k: Seq<char>,
    v: VariantV,
) -> Seq<(Seq<char>, VariantV)> {
    if spec_has_key(s, k) {
        s.update(spec_key_index(s, k), (k, v))
    } else {
        s.push((k, v))
    }
}

/// True when no two entries share a name.
pub open spec fn spec_unique_keys(s: Seq<(Seq<char>, VariantV)>) -> bool {
    forall|i: int, j: int| 0 <= i < j < s.len() ==> s[i].0 != s[j].0
}

/// Inserting preserves the uniqueness of names.
pub proof fn lemma_insert_keeps_unique_keys(
    s: Seq<(Seq<char>, VariantV)>,
    k: Seq<char>,
    v: VariantV,
)
    requires
        spec_unique_keys(s),
    ensures
        spec_unique_keys(spec_entries_insert(s, k, v)),
{
    if spec_has_key(s, k) {
        let t = s.update(spec_key_index(s, k), (k, v));
        assert(s[spec_key_index(s, k)].0 == k);
        assert forall|i: int, j: int| 0 <= i < j < t.len() implies t[i].0 != t[j].0 by {
            assert(s[i].0 != s[j].0);
        }
    } else {
        let t = s.push((k, v));
        assert forall|i: int, j: int| 0 <= i < j < t.len() implies t[i].0 != t[j].0 by {
            if j < s.len() {
                assert(s[i].0 != s[j].0);
            } else {
                assert(t[j].0 == k);
                assert(!(s[i].0 == k));
            }
        }
    }
}

/// Relies on indexmap's `IndexMap::new`: the new map is empty.
#[verifier::external_body]
pub(crate) fn reg_new() -> (r: VarMap)
    ensures
        map_entries(r) == Seq::<(Seq<char>, VariantV)>::empty(),
{
    indexmap::IndexMap::new()
}

/// Relies on indexmap's `IndexMap::insert`: an existing key keeps its
/// position in the order and takes the new value; a new key is appended
/// last.
#[verifier::external_body]
pub(crate) fn reg_insert(m: &mut VarMap, k: String, v: Variant)
    ensures
        map_entries(*final(m)) == spec_entries_insert(map_entries(*old(m)), k@, v@),
{
    m.insert(k, v);
}

/// Relies on indexmap's `IndexMap::get`: the value stored under the name,
/// or `None` when the name is absent.
#[verifier::external_body]
pub(crate) fn reg_get<'a>(m: &'a VarMap, name: &str) -> (r: Option<&'a Variant>)
    ensures
        r is Some <==> spec_has_key(map_entries(*m), name@),
        r matches Some(v) ==> v@ == map_entries(*m)[spec_key_index(map_entries(*m), name@)].1,
{
    m.get(name)
}

/// Relies on indexmap's `IndexMap::clone`: the copy holds the same pairs
/// in the same order, each value copied by this crate's value-preserving
/// `Clone` implementation.
#[verifier::external_body]
pub(crate) fn reg_clone(m: &VarMap) -> (r: VarMap)
    ensures
        map_entries(r) == map_entries(*m),
{
    m.clone()
}

/// Relies on indexmap's iteration order being the insertion order; each
/// pair is handed out as a clone made by this crate's `Clone`
/// implementations.
#[verifier::external_body]
pub(crate) fn reg_entries(m: &VarMap) -> (r: Vec<(String, Variant)>)
    ensures
        r@.len() == map_entries(*m).len(),
        forall|i: int| #![trigger map_entries(*m)[i]] #![trigger r@[i]]
            0 <= i < r@.len() ==> r@[i].0@ == map_entries(*m)[i].0 && r@[i].1@ == map_entries(
                *m,
            )[i].1,
{
    m.iter().map(|(k, v)| (k.clone(), v.clone())).collect()
}

} // verus!
