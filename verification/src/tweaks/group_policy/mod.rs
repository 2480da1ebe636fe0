//! The group policy tweaks: each grants or withdraws a user right of the
//! current user.
pub mod method;

use vstd::prelude::*;
use crate::indexed::{entry_keys, lemma_indexed_from_identity, policy_options_from};
use crate::tweaks::{
    fresh_tweak, keyed_tweak, policy_table, OptionView, Tweak, TweakCategory, TweakId,
    TweakOption,
};
use crate::tweaks::catalog::{fixed_tweak, push_fixed};
use crate::tweaks::table::table_ids;
use method::{policy_table_view, GroupPolicyTweak, GroupPolicyValue};

verus! {

/// The description of the "SeLockMemoryPrivilege" tweak.
pub const SE_LOCK_MEMORY_PRIVILEGE_DESCRIPTION: &'static str = "The SeLockMemoryPrivilege group policy setting allows a process to lock pages in physical memory, preventing them from being paged out to disk. This can improve performance for applications that require fast, consistent access to critical data by keeping it always available in RAM.";

/// The option table of the "SeLockMemoryPrivilege" tweak: off withdraws the
/// right, on grants it.
pub open spec fn se_lock_memory_privilege_table() -> Seq<(OptionView, GroupPolicyValue)> {
    seq![
        (OptionView::Enabled(false), GroupPolicyValue::Disabled),
        (OptionView::Enabled(true), GroupPolicyValue::Enabled),
    ]
}

/// The "SeLockMemoryPrivilege" tweak as `se_lock_memory_privilege` builds it.
#[verifier::opaque]
pub open spec fn is_se_lock_memory_privilege(t: Tweak) -> bool {
    &&& fresh_tweak(t, "SeLockMemoryPrivilege", SE_LOCK_MEMORY_PRIVILEGE_DESCRIPTION@, TweakCategory::Memory, true)
    &&& keyed_tweak(t, seq![OptionView::Enabled(false), OptionView::Enabled(true)])
    &&& policy_table(t, TweakId::SeLockMemoryPrivilege, "SeLockMemoryPrivilege", se_lock_memory_privilege_table())
}

/// Builds the "SeLockMemoryPrivilege" tweak.
pub fn se_lock_memory_privilege() -> (r: Tweak)
    ensures
        is_se_lock_memory_privilege(r),
{
    let options = vec![
        (TweakOption::Enabled(false), GroupPolicyValue::Disabled),
        (TweakOption::Enabled(true), GroupPolicyValue::Enabled),
    ];
    proof {
        lemma_indexed_from_identity(options@);
        assert(policy_table_view(options@) =~= se_lock_memory_privilege_table());
        assert(entry_keys(options@) =~= seq![OptionView::Enabled(false), OptionView::Enabled(true)]);
    }
    let r = Tweak::group_policy_tweak(
        "SeLockMemoryPrivilege",
        SE_LOCK_MEMORY_PRIVILEGE_DESCRIPTION,
        TweakCategory::Memory,
        GroupPolicyTweak {
            id: TweakId::SeLockMemoryPrivilege,
            key: "SeLockMemoryPrivilege",
            options: policy_options_from(options),
        },
        true,
    );
    proof {
        reveal(is_se_lock_memory_privilege);
    }
    r
}

/// The identifiers of the group policy tweaks, in the order the tool lists them.
pub open spec fn group_policy_tweak_ids() -> Seq<TweakId> {
    seq![TweakId::SeLockMemoryPrivilege]
}

/// Every group policy tweak, with its identifier, in the order the tool lists them.
pub fn all_group_policy_tweaks() -> (r: Vec<(TweakId, Tweak)>)
    ensures
        table_ids(r@) == group_policy_tweak_ids(),
        forall|i: int| 0 <= i < r.len() ==> fixed_tweak(#[trigger] r@[i].0, r@[i].1),
{
    let mut r: Vec<(TweakId, Tweak)> = Vec::new();
    push_fixed(&mut r, TweakId::SeLockMemoryPrivilege, se_lock_memory_privilege());
    assert(table_ids(r@) =~= seq![TweakId::SeLockMemoryPrivilege]);
    r
}

} // verus!
