//! Register tweaks of the caches: the op cache, the TLB cache and the
//! prioritization of code and data in the L3 cache.

use vstd::prelude::*;
use vstd::string::StringExecFns;
use crate::indexed::{
    entry_keys, lemma_indexed_from_identity, msr_options_from,
};
use crate::tweaks::{
    fresh_tweak, msr_table, option_views, OptionView, Tweak, TweakCategory, TweakId, TweakOption,
    TweakWidget,
};
use super::method::{msr_table_view, MSRTweak, MsrState};

verus! {

/// The description of the "Disable OpCache" tweak.
pub const DISABLE_OPCACHE_DESCRIPTION: &'static str = "Disables the CPU's Op Cache, forcing instructions to be decoded from L1 instruction cache. While this typically reduces performance, it can help in specific debugging scenarios or when dealing with self-modifying code.";

/// The option table of the "Disable OpCache" tweak: each option with the register
/// bits it sets or clears, in order.
pub open spec fn disable_opcache_table() -> Seq<(OptionView, Seq<MsrState>)> {
    seq![
        (OptionView::Enabled(false), seq![
            MsrState { index: 0xC0011021, bit: 5, state: false },
        ]),
        (OptionView::Enabled(true), seq![
            MsrState { index: 0xC0011021, bit: 5, state: true },
        ]),
    ]
}

/// The "Disable OpCache" tweak as `disable_opcache` builds it.
#[verifier::opaque]
pub open spec fn is_disable_opcache(t: Tweak) -> bool {
    &&& fresh_tweak(t, "Disable OpCache", DISABLE_OPCACHE_DESCRIPTION@, TweakCategory::Cpu, false)
    &&& option_views(t.options@) == seq![OptionView::Enabled(false), OptionView::Enabled(true)]
    &&& t.state == TweakOption::Enabled(false)
    &&& t.widget == TweakWidget::Toggle
    &&& msr_table(t, TweakId::DisableOpCache, true, disable_opcache_table())
}

/// Builds the "Disable OpCache" tweak.
pub fn disable_opcache() -> (r: Tweak)
    ensures
        is_disable_opcache(r),
{
    let options = vec![
        (TweakOption::Enabled(false), vec![
            MsrState { index: 0xC0011021, bit: 5, state: false },
        ]),
        (TweakOption::Enabled(true), vec![
            MsrState { index: 0xC0011021, bit: 5, state: true },
        ]),
    ];
    proof {
        lemma_indexed_from_identity(options@);
        assert(msr_table_view(options@) =~~= disable_opcache_table());
        assert(entry_keys(options@) =~= seq![OptionView::Enabled(false), OptionView::Enabled(true)]);
    }
    let r = Tweak::msr_tweak(
        "Disable OpCache",
        DISABLE_OPCACHE_DESCRIPTION,
        TweakCategory::Cpu,
        MSRTweak { id: TweakId::DisableOpCache, readable: true, options: msr_options_from(options) },
    );
    proof {
        reveal(is_disable_opcache);
    }
    r
}

/// The description of the "Disable TLB Cache" tweak.
pub const DISABLE_TLB_CACHE_DESCRIPTION: &'static str = "Disables the assumption that TLB entries are cached, potentially increasing memory access latency for aggressive memory handling optimizations.";

/// The option table of the "Disable TLB Cache" tweak: each option with the register
/// bits it sets or clears, in order.
pub open spec fn disable_tlb_cache_table() -> Seq<(OptionView, Seq<MsrState>)> {
    seq![
        (OptionView::Enabled(false), seq![
            MsrState { index: 0xC0010015, bit: 3, state: false },
        ]),
        (OptionView::Choice("Disabled"@), seq![
            MsrState { index: 0xC0010015, bit: 3, state: true },
        ]),
    ]
}

/// The "Disable TLB Cache" tweak as `disable_tlb_cache` builds it.
#[verifier::opaque]
pub open spec fn is_disable_tlb_cache(t: Tweak) -> bool {
    &&& fresh_tweak(t, "Disable TLB Cache", DISABLE_TLB_CACHE_DESCRIPTION@, TweakCategory::Cpu, false)
    &&& option_views(t.options@) == seq![OptionView::Enabled(false), OptionView::Choice("Disabled"@)]
    &&& t.state == TweakOption::Enabled(false)
    &&& t.widget == TweakWidget::Toggle
    &&& msr_table(t, TweakId::DisableTlbCache, true, disable_tlb_cache_table())
}

/// Builds the "Disable TLB Cache" tweak.
pub fn disable_tlb_cache() -> (r: Tweak)
    ensures
        is_disable_tlb_cache(r),
{
    let options = vec![
        (TweakOption::Enabled(false), vec![
            MsrState { index: 0xC0010015, bit: 3, state: false },
        ]),
        (TweakOption::Option(String::from_str("Disabled")), vec![
            MsrState { index: 0xC0010015, bit: 3, state: true },
        ]),
    ];
    proof {
        reveal_strlit("Disabled");
        assert("Disabled"@.len() == 8);
        assert(options@[0].0@ == OptionView::Enabled(false));
        assert(options@[1].0@ == OptionView::Choice("Disabled"@));
        assert forall|i: int, j: int| 0 <= i < j < options@.len() implies options@[i].0@ != options@[j].0@ by {
        }
        lemma_indexed_from_identity(options@);
        assert(msr_table_view(options@) =~~= disable_tlb_cache_table());
        assert(entry_keys(options@) =~= seq![OptionView::Enabled(false), OptionView::Choice("Disabled"@)]);
    }
    let r = Tweak::msr_tweak(
        "Disable TLB Cache",
        DISABLE_TLB_CACHE_DESCRIPTION,
        TweakCategory::Cpu,
        MSRTweak { id: TweakId::DisableTlbCache, readable: true, options: msr_options_from(options) },
    );
    proof {
        reveal(is_disable_tlb_cache);
    }
    r
}

/// The description of the "L3 Cache Code/Data Prioritization" tweak.
pub const ENABLE_L3_CODE_DATA_PRIORITIZATION_DESCRIPTION: &'static str = "Controls L3 cache partitioning between code and data. Enable for potentially higher benchmark scores by preventing instruction cache thrashing in L3. Most effective in benchmarks with large code footprints or when running multiple intensive benchmarks simultaneously.";

/// The option table of the "L3 Cache Code/Data Prioritization" tweak: each option with the register
/// bits it sets or clears, in order.
pub open spec fn enable_l3_code_data_prioritization_table() -> Seq<(OptionView, Seq<MsrState>)> {
    seq![
        (OptionView::Enabled(false), seq![
            MsrState { index: 0x00000C81, bit: 0, state: false },
        ]),
        (OptionView::Enabled(true), seq![
            MsrState { index: 0x00000C81, bit: 0, state: true },
        ]),
    ]
}

/// The "L3 Cache Code/Data Prioritization" tweak as `enable_l3_code_data_prioritization` builds it.
#[verifier::opaque]
pub open spec fn is_enable_l3_code_data_prioritization(t: Tweak) -> bool {
    &&& fresh_tweak(t, "L3 Cache Code/Data Prioritization", ENABLE_L3_CODE_DATA_PRIORITIZATION_DESCRIPTION@, TweakCategory::Cpu, false)
    &&& option_views(t.options@) == seq![OptionView::Enabled(false), OptionView::Enabled(true)]
    &&& t.state == TweakOption::Enabled(false)
    &&& t.widget == TweakWidget::Toggle
    &&& msr_table(t, TweakId::EnableL3CodeDataPrioritization, true, enable_l3_code_data_prioritization_table())
}

/// Builds the "L3 Cache Code/Data Prioritization" tweak.
pub fn enable_l3_code_data_prioritization() -> (r: Tweak)
    ensures
        is_enable_l3_code_data_prioritization(r),
{
    let options = vec![
        (TweakOption::Enabled(false), vec![
            MsrState { index: 0x00000C81, bit: 0, state: false },
        ]),
        (TweakOption::Enabled(true), vec![
            MsrState { index: 0x00000C81, bit: 0, state: true },
        ]),
    ];
    proof {
        lemma_indexed_from_identity(options@);
        assert(msr_table_view(options@) =~~= enable_l3_code_data_prioritization_table());
        assert(entry_keys(options@) =~= seq![OptionView::Enabled(false), OptionView::Enabled(true)]);
    }
    let r = Tweak::msr_tweak(
        "L3 Cache Code/Data Prioritization",
        ENABLE_L3_CODE_DATA_PRIORITIZATION_DESCRIPTION,
        TweakCategory::Cpu,
        MSRTweak { id: TweakId::EnableL3CodeDataPrioritization, readable: true, options: msr_options_from(options) },
    );
    proof {
        reveal(is_enable_l3_code_data_prioritization);
    }
    r
}

} // verus!
