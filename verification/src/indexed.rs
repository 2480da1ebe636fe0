//! The option tables of the tweaks are `indexmap::IndexMap`s keyed by
//! `TweakOption`. This module declares that type to Verus, names what each
//! table holds as a sequence of entries in insertion order, and wraps the
//! few `IndexMap` operations that the tweaks use.
use vstd::prelude::*;
use indexmap::IndexMap;
use crate::tweaks::{TweakOption, OptionView};
use crate::tweaks::registry::method::RegistryModification;
use crate::tweaks::msr::method::MsrState;
use crate::tweaks::group_policy::method::GroupPolicyValue;

verus! {

#[verifier::external_type_specification]
#[verifier::external_body]
#[verifier::reject_recursive_types(K)]
#[verifier::reject_recursive_types(V)]
#[verifier::reject_recursive_types(S)]
pub struct ExIndexMap<K, V, S>(IndexMap<K, V, S>);

/// The position of the first entry whose key is the option `k`, or -1.
pub open spec fn key_position<V>(s: Seq<(TweakOption, V)>, k: OptionView) -> int
    decreases s.len(),
{
    if s.len() == 0 {
        -1
    } else if s[0].0@ == k {
        0
    } else {
        let p = key_position(s.drop_first(), k);
        if p < 0 {
            -1
        } else {
            p + 1
        }
    }
}

/// What `IndexMap::insert` does to the entries: an existing key keeps its
/// place and takes the new value; a new key goes last.
pub open spec fn insert_entry<V>(s: Seq<(TweakOption, V)>, k: TweakOption, v: V) -> Seq<(TweakOption, V)> {
    let p = key_position(s, k@);
    if p < 0 {
        s.push((k, v))
    } else {
        s.update(p, (s[p].0, v))
    }
}

/// The entries of a map built by `IndexMap::from_iter` from the pairs `s`:
/// each pair is inserted in turn.
pub open spec fn indexed_from<V>(s: Seq<(TweakOption, V)>) -> Seq<(TweakOption, V)>
    decreases s.len(),
{
    if s.len() == 0 {
        Seq::empty()
    } else {
        insert_entry(indexed_from(s.drop_last()), s.last().0, s.last().1)
    }
}

/// No two entries have the same option as key.
pub open spec fn keys_distinct<V>(s: Seq<(TweakOption, V)>) -> bool {
    forall|i: int, j: int| 0 <= i < j < s.len() ==> s[i].0@ != s[j].0@
}

/// The keys of the entries, as option values, in order.
pub open spec fn entry_keys<V>(s: Seq<(TweakOption, V)>) -> Seq<OptionView> {
    s.map_values(|e: (TweakOption, V)| e.0@)
}

/// `key_position` finds exactly the first entry with the given key.
pub proof fn lemma_key_position<V>(s: Seq<(TweakOption, V)>, k: OptionView)
    ensures
        -1 <= key_position(s, k) < s.len(),
        key_position(s, k) >= 0 ==> s[key_position(s, k)].0@ == k,
        key_position(s, k) >= 0 ==> forall|j: int| 0 <= j < key_position(s, k) ==> s[j].0@ != k,
        key_position(s, k) < 0 ==> forall|j: int| 0 <= j < s.len() ==> s[j].0@ != k,
    decreases s.len(),
{
    if s.len() > 0 && s[0].0@ != k {
        lemma_key_position(s.drop_first(), k);
        assert forall|j: int| 1 <= j < s.len() implies s[j] == s.drop_first()[j - 1] by {}
    }
}

/// Entries whose keys, in order, are a sequence without repetitions have
/// distinct keys.
pub proof fn lemma_keys_distinct_from<V>(s: Seq<(TweakOption, V)>, keys: Seq<OptionView>)
    requires
        entry_keys(s) == keys,
        forall|i: int, j: int| 0 <= i < j < keys.len() ==> keys[i] != keys[j],
    ensures
        keys_distinct(s),
{
    assert forall|i: int, j: int| 0 <= i < j < s.len() implies s[i].0@ != s[j].0@ by {
        assert(entry_keys(s)[i] == s[i].0@);
        assert(entry_keys(s)[j] == s[j].0@);
    }
}

/// Inserting keeps the keys distinct.
pub proof fn lemma_insert_distinct<V>(s: Seq<(TweakOption, V)>, k: TweakOption, v: V)
    requires
        keys_distinct(s),
    ensures
        keys_distinct(insert_entry(s, k, v)),
        key_position(s, k@) < 0 ==> insert_entry(s, k, v).len() == s.len() + 1,
        key_position(s, k@) >= 0 ==> insert_entry(s, k, v).len() == s.len(),
{
    lemma_key_position(s, k@);
}

/// A map built by `from_iter` never holds the same key twice.
pub proof fn lemma_indexed_from_distinct<V>(s: Seq<(TweakOption, V)>)
    ensures
        keys_distinct(indexed_from(s)),
        indexed_from(s).len() <= s.len(),
    decreases s.len(),
{
    if s.len() > 0 {
        lemma_indexed_from_distinct(s.drop_last());
        lemma_insert_distinct(indexed_from(s.drop_last()), s.last().0, s.last().1);
    }
}

/// Built from pairs with distinct keys, the map holds exactly those pairs in
/// that order.
pub proof fn lemma_indexed_from_identity<V>(s: Seq<(TweakOption, V)>)
    requires
        keys_distinct(s),
    ensures
        indexed_from(s) == s,
    decreases s.len(),
{
    if s.len() > 0 {
        let init = s.drop_last();
        assert(keys_distinct(init));
        lemma_indexed_from_identity(init);
        lemma_key_position(init, s.last().0@);
        if key_position(init, s.last().0@) >= 0 {
            let p = key_position(init, s.last().0@);
            assert(s[p].0@ == s[s.len() - 1].0@);
        }
        assert(indexed_from(s) =~= s);
    }
}

/// Built from pairs with distinct keys followed by one more pair whose key
/// is already among them, the map keeps that key at its first place and
/// gives it the value of the last pair.
pub proof fn lemma_indexed_from_repeat_last<V>(s: Seq<(TweakOption, V)>)
    requires
        s.len() > 0,
        keys_distinct(s.drop_last()),
        key_position(s.drop_last(), s.last().0@) >= 0,
    ensures
        ({
            let init = s.drop_last();
            let p = key_position(init, s.last().0@);
            indexed_from(s) == init.update(p, (init[p].0, s.last().1))
        }),
{
    lemma_indexed_from_identity(s.drop_last());
}

/// What the option table of a registry tweak holds, in insertion order.
pub uninterp spec fn registry_option_entries(m: IndexMap<TweakOption, Vec<RegistryModification>>) -> Seq<(TweakOption, Vec<RegistryModification>)>;

/// What the option table of a model-specific-register tweak holds, in insertion order.
pub uninterp spec fn msr_option_entries(m: IndexMap<TweakOption, Vec<MsrState>>) -> Seq<(TweakOption, Vec<MsrState>)>;

/// What the option table of a group policy tweak holds, in insertion order.
pub uninterp spec fn policy_option_entries(m: IndexMap<TweakOption, GroupPolicyValue>) -> Seq<(TweakOption, GroupPolicyValue)>;

/// Calls `IndexMap::from_iter`, which inserts the pairs in order: a repeated
/// key keeps its first place and takes its last value.
#[verifier::external_body]
pub(crate) fn registry_options_from(v: Vec<(TweakOption, Vec<RegistryModification>)>) -> (m: IndexMap<TweakOption, Vec<RegistryModification>>)
    ensures
        registry_option_entries(m) == indexed_from(v@),
{
    IndexMap::from_iter(v)
}

/// Calls `IndexMap::get`: the value of the entry whose key is `k`, if any.
#[verifier::external_body]
pub(crate) fn registry_options_get<'a>(m: &'a IndexMap<TweakOption, Vec<RegistryModification>>, k: &TweakOption) -> (r: Option<&'a Vec<RegistryModification>>)
    ensures
        ({
            let p = key_position(registry_option_entries(*m), k@);
            if p < 0 { r is None } else { r == Some(&registry_option_entries(*m)[p].1) }
        }),
{
    m.get(k)
}

/// Calls `IndexMap::get_index`: the entry at position `i`, if there is one.
#[verifier::external_body]
pub(crate) fn registry_options_get_index(m: &IndexMap<TweakOption, Vec<RegistryModification>>, i: usize) -> (r: Option<(&TweakOption, &Vec<RegistryModification>)>)
    ensures
        i < registry_option_entries(*m).len() ==> r == Some((&registry_option_entries(*m)[i as int].0, &registry_option_entries(*m)[i as int].1)),
        i >= registry_option_entries(*m).len() ==> r is None,
{
    m.get_index(i)
}

/// Calls `IndexMap::len`: the number of entries.
#[verifier::external_body]
pub(crate) fn registry_options_len(m: &IndexMap<TweakOption, Vec<RegistryModification>>) -> (r: usize)
    ensures
        r == registry_option_entries(*m).len(),
{
    m.len()
}

/// Calls `IndexMap::from_iter`, which inserts the pairs in order: a repeated
/// key keeps its first place and takes its last value.
#[verifier::external_body]
pub(crate) fn msr_options_from(v: Vec<(TweakOption, Vec<MsrState>)>) -> (m: IndexMap<TweakOption, Vec<MsrState>>)
    ensures
        msr_option_entries(m) == indexed_from(v@),
{
    IndexMap::from_iter(v)
}

/// Calls `IndexMap::get`: the value of the entry whose key is `k`, if any.
#[verifier::external_body]
pub(crate) fn msr_options_get<'a>(m: &'a IndexMap<TweakOption, Vec<MsrState>>, k: &TweakOption) -> (r: Option<&'a Vec<MsrState>>)
    ensures
        ({
            let p = key_position(msr_option_entries(*m), k@);
            if p < 0 { r is None } else { r == Some(&msr_option_entries(*m)[p].1) }
        }),
{
    m.get(k)
}

/// Calls `IndexMap::get_index`: the entry at position `i`, if there is one.
#[verifier::external_body]
pub(crate) fn msr_options_get_index(m: &IndexMap<TweakOption, Vec<MsrState>>, i: usize) -> (r: Option<(&TweakOption, &Vec<MsrState>)>)
    ensures
        i < msr_option_entries(*m).len() ==> r == Some((&msr_option_entries(*m)[i as int].0, &msr_option_entries(*m)[i as int].1)),
        i >= msr_option_entries(*m).len() ==> r is None,
{
    m.get_index(i)
}

/// Calls `IndexMap::len`: the number of entries.
#[verifier::external_body]
pub(crate) fn msr_options_len(m: &IndexMap<TweakOption, Vec<MsrState>>) -> (r: usize)
    ensures
        r == msr_option_entries(*m).len(),
{
    m.len()
}

/// Calls `IndexMap::from_iter`, which inserts the pairs in order: a repeated
/// key keeps its first place and takes its last value.
#[verifier::external_body]
pub(crate) fn policy_options_from(v: Vec<(TweakOption, GroupPolicyValue)>) -> (m: IndexMap<TweakOption, GroupPolicyValue>)
    ensures
        policy_option_entries(m) == indexed_from(v@),
{
    IndexMap::from_iter(v)
}

/// Calls `IndexMap::get`: the value of the entry whose key is `k`, if any.
#[verifier::external_body]
pub(crate) fn policy_options_get<'a>(m: &'a IndexMap<TweakOption, GroupPolicyValue>, k: &TweakOption) -> (r: Option<&'a GroupPolicyValue>)
    ensures
        ({
            let p = key_position(policy_option_entries(*m), k@);
            if p < 0 { r is None } else { r == Some(&policy_option_entries(*m)[p].1) }
        }),
{
    m.get(k)
}

/// Calls `IndexMap::get_index`: the entry at position `i`, if there is one.
#[verifier::external_body]
pub(crate) fn policy_options_get_index(m: &IndexMap<TweakOption, GroupPolicyValue>, i: usize) -> (r: Option<(&TweakOption, &GroupPolicyValue)>)
    ensures
        i < policy_option_entries(*m).len() ==> r == Some((&policy_option_entries(*m)[i as int].0, &policy_option_entries(*m)[i as int].1)),
        i >= policy_option_entries(*m).len() ==> r is None,
{
    m.get_index(i)
}

/// Calls `IndexMap::len`: the number of entries.
#[verifier::external_body]
pub(crate) fn policy_options_len(m: &IndexMap<TweakOption, GroupPolicyValue>) -> (r: usize)
    ensures
        r == policy_option_entries(*m).len(),
{
    m.len()
}

} // verus!
