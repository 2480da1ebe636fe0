//! A table keyed by tweak identifier and kept in identifier order, as a map
//! ordered by `TweakId` keeps it: inserting under an identifier that is
//! already there replaces its entry.
use vstd::prelude::*;
use crate::tweaks::{id_ordinal, TweakId};

verus! {

/// The identifiers of the entries, in order.
pub open spec fn table_ids<V>(s: Seq<(TweakId, V)>) -> Seq<TweakId> {
    s.map_values(|e: (TweakId, V)| e.0)
}

/// Some entry has identifier `id`.
pub open spec fn has_id<V>(s: Seq<(TweakId, V)>, id: TweakId) -> bool {
    exists|i: int| 0 <= i < s.len() && s[i].0 == id
}

/// The ordinals of the identifiers of the entries, in order.
pub open spec fn table_ordinals<V>(s: Seq<(TweakId, V)>) -> Seq<nat> {
    s.map_values(|e: (TweakId, V)| id_ordinal(e.0))
}

/// The identifiers strictly increase: the table is in order and holds each
/// identifier at most once.
pub open spec fn in_id_order<V>(s: Seq<(TweakId, V)>) -> bool {
    forall|i: int, j: int| 0 <= i < j < s.len() ==> id_ordinal(#[trigger] s[i].0) < id_ordinal(#[trigger] s[j].0)
}

/// Inserting a number into a strictly increasing sequence: it goes to its
/// place, unless it is there already.
pub open spec fn insert_sorted(s: Seq<nat>, x: nat) -> Seq<nat>
    decreases s.len(),
{
    if s.len() == 0 {
        seq![x]
    } else if x < s[0] {
        seq![x] + s
    } else if x == s[0] {
        s
    } else {
        seq![s[0]] + insert_sorted(s.drop_first(), x)
    }
}

proof fn lemma_insert_sorted_at(s: Seq<nat>, x: nat, p: int)
    requires
        0 <= p <= s.len(),
        forall|k: int| 0 <= k < p ==> s[k] < x,
        p < s.len() ==> x <= s[p],
    ensures
        p < s.len() && s[p] == x ==> insert_sorted(s, x) == s,
        !(p < s.len() && s[p] == x) ==> insert_sorted(s, x) == s.take(p) + seq![x] + s.skip(p),
    decreases s.len(),
{
    if s.len() > 0 && p > 0 {
        let t = s.drop_first();
        assert forall|k: int| 0 <= k < p - 1 implies t[k] < x by {
            assert(t[k] == s[k + 1]);
        }
        lemma_insert_sorted_at(t, x, p - 1);
        assert(s =~= seq![s[0]] + t);
        if !(p < s.len() && s[p] == x) {
            assert(s.take(p) + seq![x] + s.skip(p) =~= seq![s[0]] + (t.take(p - 1) + seq![x] + t.skip(p - 1)));
        }
    } else if s.len() > 0 {
        if s[0] != x {
            assert(s.take(0) + seq![x] + s.skip(0) =~= seq![x] + s);
        }
    } else {
        assert(s.take(0) + seq![x] + s.skip(0) =~= seq![x]);
    }
}

/// The new entry and entries of the old table, each of the old entries with
/// another identifier kept.
pub open spec fn entries_from<V>(after: Seq<(TweakId, V)>, before: Seq<(TweakId, V)>, id: TweakId, value: V) -> bool {
    &&& exists|i: int| 0 <= i < after.len() && after[i] == (id, value)
    &&& forall|i: int| 0 <= i < after.len() ==> #[trigger] after[i] == (id, value)
            || (after[i].0 != id && before.contains(after[i]))
    &&& forall|j: int| 0 <= j < before.len() && #[trigger] before[j].0 != id ==> after.contains(before[j])
}

proof fn lemma_ordinal_injective(a: TweakId, b: TweakId)
    ensures
        id_ordinal(a) == id_ordinal(b) ==> a == b,
{
    crate::tweaks::lemma_id_ordinal_inverse(a);
    crate::tweaks::lemma_id_ordinal_inverse(b);
}

proof fn lemma_replace_entry<V>(before: Seq<(TweakId, V)>, p: int, id: TweakId, value: V)
    requires
        in_id_order(before),
        0 <= p < before.len(),
        before[p].0 == id,
    ensures
        in_id_order(before.update(p, (id, value))),
        table_ordinals(before.update(p, (id, value))) == table_ordinals(before),
        entries_from(before.update(p, (id, value)), before, id, value),
{
    let after = before.update(p, (id, value));
    assert(table_ordinals(after) =~= table_ordinals(before));
    assert(after[p] == (id, value));
    assert forall|i: int| 0 <= i < after.len() implies #[trigger] after[i] == (id, value)
        || (after[i].0 != id && before.contains(after[i])) by {
        if i != p {
            assert(after[i] == before[i]);
            if i < p {
                assert(id_ordinal(before[i].0) < id_ordinal(before[p].0));
            } else {
                assert(id_ordinal(before[p].0) < id_ordinal(before[i].0));
            }
        }
    }
    assert forall|j: int| 0 <= j < before.len() && #[trigger] before[j].0 != id implies after.contains(before[j]) by {
        assert(after[j] == before[j]);
    }
}

proof fn lemma_insert_entry_at<V>(before: Seq<(TweakId, V)>, p: int, id: TweakId, value: V)
    requires
        in_id_order(before),
        0 <= p <= before.len(),
        forall|k: int| 0 <= k < p ==> id_ordinal(#[trigger] before[k].0) < id_ordinal(id),
        p < before.len() ==> id_ordinal(id) < id_ordinal(before[p].0),
    ensures
        ({
            let after = before.take(p) + seq![(id, value)] + before.skip(p);
            &&& in_id_order(after)
            &&& table_ordinals(after) == table_ordinals(before).take(p) + seq![id_ordinal(id)] + table_ordinals(before).skip(p)
            &&& entries_from(after, before, id, value)
        }),
{
    let after = before.take(p) + seq![(id, value)] + before.skip(p);
    assert(table_ordinals(after) =~= table_ordinals(before).take(p) + seq![id_ordinal(id)] + table_ordinals(before).skip(p));
    assert(after[p] == (id, value));
    assert forall|i: int, j: int| 0 <= i < j < after.len() implies id_ordinal(#[trigger] after[i].0) < id_ordinal(#[trigger] after[j].0) by {
        if i < p {
            assert(after[i] == before[i]);
        } else if i > p {
            assert(after[i] == before[i - 1]);
        }
        if j < p {
            assert(after[j] == before[j]);
        } else if j > p {
            assert(after[j] == before[j - 1]);
            if j - 1 > p {
                assert(id_ordinal(before[p].0) < id_ordinal(before[j - 1].0));
            }
        }
    }
    assert forall|i: int| 0 <= i < after.len() implies #[trigger] after[i] == (id, value)
        || (after[i].0 != id && before.contains(after[i])) by {
        if i < p {
            assert(after[i] == before[i]);
        } else if i > p {
            assert(after[i] == before[i - 1]);
            if i - 1 > p {
                assert(id_ordinal(before[p].0) < id_ordinal(before[i - 1].0));
            }
        }
    }
    assert forall|j: int| 0 <= j < before.len() && #[trigger] before[j].0 != id implies after.contains(before[j]) by {
        if j < p {
            assert(after[j] == before[j]);
        } else {
            assert(after[j + 1] == before[j]);
        }
    }
}

/// Puts `value` under `id`. An entry with the same identifier is replaced;
/// otherwise the new entry goes where its identifier belongs.
pub fn insert_entry<V>(table: &mut Vec<(TweakId, V)>, id: TweakId, value: V)
    requires
        in_id_order(old(table)@),
    ensures
        in_id_order(final(table)@),
        table_ordinals(final(table)@) == insert_sorted(table_ordinals(old(table)@), id_ordinal(id)),
        entries_from(final(table)@, old(table)@, id, value),
{
    let ghost before = table@;
    let x = id.ordinal();
    let mut p: usize = 0;
    while p < table.len() && table[p].0.ordinal() < x
        invariant
            table@ == before,
            x == id_ordinal(id),
            p <= table.len(),
            forall|k: int| 0 <= k < p ==> id_ordinal(#[trigger] table@[k].0) < x,
        decreases table.len() - p,
    {
        p = p + 1;
    }
    proof {
        let ords = table_ordinals(before);
        assert forall|k: int| 0 <= k < p implies ords[k] < x by {
            assert(ords[k] == id_ordinal(before[k].0));
        }
        if p < table.len() {
            assert(ords[p as int] == id_ordinal(before[p as int].0));
        }
        lemma_insert_sorted_at(ords, x as nat, p as int);
    }
    if p < table.len() && table[p].0.ordinal() == x {
        proof {
            lemma_ordinal_injective(id, before[p as int].0);
            lemma_replace_entry(before, p as int, id, value);
        }
        let _replaced = table.remove(p);
        table.insert(p, (id, value));
        assert(table@ =~= before.update(p as int, (id, value)));
    } else {
        proof {
            lemma_insert_entry_at(before, p as int, id, value);
        }
        table.insert(p, (id, value));
        assert(table@ =~= before.take(p as int) + seq![(id, value)] + before.skip(p as int));
    }
}

/// Inserting a number that is not there yet makes the sequence one longer.
proof fn lemma_insert_sorted_new(s: Seq<nat>, x: nat)
    requires
        !s.contains(x),
    ensures
        insert_sorted(s, x).len() == s.len() + 1,
    decreases s.len(),
{
    if s.len() > 0 && x > s[0] {
        assert(!s.drop_first().contains(x)) by {
            if s.drop_first().contains(x) {
                let j = choose|j: int| 0 <= j < s.drop_first().len() && s.drop_first()[j] == x;
                assert(s[j + 1] == x);
            }
        }
        lemma_insert_sorted_new(s.drop_first(), x);
    } else if s.len() > 0 && x == s[0] {
        assert(s.contains(x));
    }
}

/// The table of the entries of `lists`, one list after another, when no
/// identifier occurs twice among them: it is in identifier order, holds
/// every entry of every list and nothing else, and so is as long as the
/// lists together.
pub fn table_from_lists<V>(
    registry: Vec<(TweakId, V)>,
    winapi: Vec<(TweakId, V)>,
    powershell: Vec<(TweakId, V)>,
    group_policy: Vec<(TweakId, V)>,
    msr: Vec<(TweakId, V)>,
) -> (r: Vec<(TweakId, V)>)
    requires
        table_ids(registry@ + winapi@ + powershell@ + group_policy@ + msr@).no_duplicates(),
    ensures
        ({
            let all = registry@ + winapi@ + powershell@ + group_policy@ + msr@;
            &&& in_id_order(r@)
            &&& r.len() == registry.len() + winapi.len() + powershell.len() + group_policy.len() + msr.len()
            &&& forall|j: int| 0 <= j < all.len() ==> r@.contains(#[trigger] all[j])
            &&& forall|i: int| 0 <= i < r.len() ==> all.contains(#[trigger] r@[i])
        }),
{
    let ghost a = registry@ + winapi@ + powershell@ + group_policy@ + msr@;
    let mut all = registry;
    let mut w = winapi;
    let mut p = powershell;
    let mut g = group_policy;
    let mut m = msr;
    all.append(&mut w);
    all.append(&mut p);
    all.append(&mut g);
    all.append(&mut m);
    assert(all@ =~= a);
    let mut table: Vec<(TweakId, V)> = Vec::new();
    let ghost mut k: int = 0;
    while all.len() > 0
        invariant
            table_ids(a).no_duplicates(),
            0 <= k <= a.len(),
            all@ == a.skip(k),
            in_id_order(table@),
            table.len() == k,
            forall|j: int| 0 <= j < k ==> table@.contains(#[trigger] a[j]),
            forall|i: int| 0 <= i < table.len() ==> a.take(k).contains(#[trigger] table@[i]),
        decreases all.len(),
    {
        let ghost before = table@;
        let (id, v) = all.remove(0);
        assert(a[k] == (id, v));
        proof {
            let ords = table_ordinals(before);
            assert(!ords.contains(id_ordinal(id))) by {
                if ords.contains(id_ordinal(id)) {
                    let i = choose|i: int| 0 <= i < ords.len() && ords[i] == id_ordinal(id);
                    assert(ords[i] == id_ordinal(before[i].0));
                    assert(a.take(k).contains(before[i]));
                    let j = choose|j: int| 0 <= j < a.take(k).len() && a.take(k)[j] == before[i];
                    lemma_ordinal_injective(before[i].0, id);
                    assert(table_ids(a)[j] == a[j].0);
                    assert(table_ids(a)[k] == a[k].0);
                }
            }
            lemma_insert_sorted_new(ords, id_ordinal(id));
        }
        insert_entry(&mut table, id, v);
        proof {
            let after = table@;
            assert(after.len() == table_ordinals(after).len());
            assert forall|j: int| 0 <= j < k + 1 implies after.contains(#[trigger] a[j]) by {
                if j < k {
                    assert(before.contains(a[j]));
                    let i = choose|i: int| 0 <= i < before.len() && before[i] == a[j];
                    assert(table_ids(a)[j] == a[j].0);
                    assert(table_ids(a)[k] == a[k].0);
                    assert(before[i].0 != id);
                }
            }
            assert forall|i: int| 0 <= i < after.len() implies a.take(k + 1).contains(#[trigger] after[i]) by {
                assert(a.take(k + 1)[k] == a[k]);
                if after[i] != (id, v) {
                    let j = choose|j: int| 0 <= j < before.len() && before[j] == after[i];
                    assert(a.take(k).contains(before[j]));
                    let q = choose|q: int| 0 <= q < a.take(k).len() && a.take(k)[q] == before[j];
                    assert(a.take(k + 1)[q] == a.take(k)[q]);
                }
            }
            k = k + 1;
        }
        assert(all@ =~= a.skip(k));
    }
    proof {
        assert(a.take(k) =~= a);
    }
    table
}

} // verus!
