//! Register tweaks of the hardware prefetchers: their aggressiveness and
//! each prefetcher on its own.

use vstd::prelude::*;
use vstd::string::StringExecFns;
use crate::indexed::{
    entry_keys, lemma_indexed_from_identity, msr_options_from,
};
use crate::tweaks::{
    fresh_tweak, msr_table, option_views, OptionView, Tweak, TweakCategory, TweakId, TweakOption,
    TweakWidget,
};
use super::method::{msr_table_view, MSRTweak, MsrState};

verus! {

/// The description of the "Prefetcher Aggressiveness" tweak.
pub const PREFETCH_AGGRESSIVENESS_PROFILE_DESCRIPTION: &'static str = "Controls CPU's cache prefetch aggressiveness. Level 0 is least aggressive (lowest power, may improve benchmarks that benefit from precise cache control), Level 3 is most aggressive (highest performance in sequential workloads). Benchmark your specific workload to find optimal setting.";

/// The option table of the "Prefetcher Aggressiveness" tweak: each option with the register
/// bits it sets or clears, in order. "Level n" sets MasterEnable (bit 6) of
/// the prefetch control register and writes the profile level n into bits
/// 9:7; the level 7 in those bits is reserved for the hardware.
pub open spec fn prefetch_aggressiveness_profile_table() -> Seq<(OptionView, Seq<MsrState>)> {
    seq![
        (OptionView::Choice("Level 0"@), seq![
            MsrState { index: 0xC0000108, bit: 6, state: true },
            MsrState { index: 0xC0000108, bit: 7, state: false },
            MsrState { index: 0xC0000108, bit: 8, state: false },
            MsrState { index: 0xC0000108, bit: 9, state: false },
        ]),
        (OptionView::Choice("Level 1"@), seq![
            MsrState { index: 0xC0000108, bit: 6, state: true },
            MsrState { index: 0xC0000108, bit: 7, state: true },
            MsrState { index: 0xC0000108, bit: 8, state: false },
            MsrState { index: 0xC0000108, bit: 9, state: false },
        ]),
        (OptionView::Choice("Level 2"@), seq![
            MsrState { index: 0xC0000108, bit: 6, state: true },
            MsrState { index: 0xC0000108, bit: 7, state: false },
            MsrState { index: 0xC0000108, bit: 8, state: true },
            MsrState { index: 0xC0000108, bit: 9, state: false },
        ]),
        (OptionView::Choice("Level 3"@), seq![
            MsrState { index: 0xC0000108, bit: 6, state: true },
            MsrState { index: 0xC0000108, bit: 7, state: true },
            MsrState { index: 0xC0000108, bit: 8, state: true },
            MsrState { index: 0xC0000108, bit: 9, state: false },
        ]),
    ]
}

/// The "Prefetcher Aggressiveness" tweak as `prefetch_aggressiveness_profile` builds it.
#[verifier::opaque]
pub open spec fn is_prefetch_aggressiveness_profile(t: Tweak) -> bool {
    &&& fresh_tweak(t, "Prefetcher Aggressiveness", PREFETCH_AGGRESSIVENESS_PROFILE_DESCRIPTION@, TweakCategory::Cpu, false)
    &&& option_views(t.options@) == seq![OptionView::Choice("Level 0"@), OptionView::Choice("Level 1"@), OptionView::Choice("Level 2"@), OptionView::Choice("Level 3"@)]
    &&& t.state == TweakOption::Enabled(false)
    &&& t.widget == TweakWidget::SettingsComboBox
    &&& msr_table(t, TweakId::AggressivePrefetchProfile, true, prefetch_aggressiveness_profile_table())
}

/// Builds the "Prefetcher Aggressiveness" tweak.
pub fn prefetch_aggressiveness_profile() -> (r: Tweak)
    ensures
        is_prefetch_aggressiveness_profile(r),
{
    let options = vec![
        (TweakOption::Option(String::from_str("Level 0")), vec![
            MsrState { index: 0xC0000108, bit: 6, state: true },
            MsrState { index: 0xC0000108, bit: 7, state: false },
            MsrState { index: 0xC0000108, bit: 8, state: false },
            MsrState { index: 0xC0000108, bit: 9, state: false },
        ]),
        (TweakOption::Option(String::from_str("Level 1")), vec![
            MsrState { index: 0xC0000108, bit: 6, state: true },
            MsrState { index: 0xC0000108, bit: 7, state: true },
            MsrState { index: 0xC0000108, bit: 8, state: false },
            MsrState { index: 0xC0000108, bit: 9, state: false },
        ]),
        (TweakOption::Option(String::from_str("Level 2")), vec![
            MsrState { index: 0xC0000108, bit: 6, state: true },
            MsrState { index: 0xC0000108, bit: 7, state: false },
            MsrState { index: 0xC0000108, bit: 8, state: true },
            MsrState { index: 0xC0000108, bit: 9, state: false },
        ]),
        (TweakOption::Option(String::from_str("Level 3")), vec![
            MsrState { index: 0xC0000108, bit: 6, state: true },
            MsrState { index: 0xC0000108, bit: 7, state: true },
            MsrState { index: 0xC0000108, bit: 8, state: true },
            MsrState { index: 0xC0000108, bit: 9, state: false },
        ]),
    ];
    proof {
        reveal_strlit("Level 0");
        reveal_strlit("Level 1");
        reveal_strlit("Level 2");
        reveal_strlit("Level 3");
        assert("Level 0"@.len() == 7);
        assert("Level 1"@.len() == 7);
        assert("Level 2"@.len() == 7);
        assert("Level 3"@.len() == 7);
        assert("Level 0"@[6] != "Level 1"@[6]);
        assert("Level 0"@[6] != "Level 2"@[6]);
        assert("Level 0"@[6] != "Level 3"@[6]);
        assert("Level 1"@[6] != "Level 2"@[6]);
        assert("Level 1"@[6] != "Level 3"@[6]);
        assert("Level 2"@[6] != "Level 3"@[6]);
        assert(options@[0].0@ == OptionView::Choice("Level 0"@));
        assert(options@[1].0@ == OptionView::Choice("Level 1"@));
        assert(options@[2].0@ == OptionView::Choice("Level 2"@));
        assert(options@[3].0@ == OptionView::Choice("Level 3"@));
        assert forall|i: int, j: int| 0 <= i < j < options@.len() implies options@[i].0@ != options@[j].0@ by {
            if i == 0 && j == 1 {} else if i == 0 && j == 2 {} else if i == 0 && j == 3 {} else if i == 1 && j == 2 {} else if i == 1 && j == 3 {} else {}
        }
        lemma_indexed_from_identity(options@);
        assert(msr_table_view(options@) =~~= prefetch_aggressiveness_profile_table());
        assert(entry_keys(options@) =~= seq![OptionView::Choice("Level 0"@), OptionView::Choice("Level 1"@), OptionView::Choice("Level 2"@), OptionView::Choice("Level 3"@)]);
    }
    let r = Tweak::msr_tweak(
        "Prefetcher Aggressiveness",
        PREFETCH_AGGRESSIVENESS_PROFILE_DESCRIPTION,
        TweakCategory::Cpu,
        MSRTweak { id: TweakId::AggressivePrefetchProfile, readable: true, options: msr_options_from(options) },
    );
    proof {
        reveal(is_prefetch_aggressiveness_profile);
    }
    r
}

/// The description of the "Up/Down Prefetcher Control" tweak.
pub const DISABLE_UP_DOWN_PREFETCHER_DESCRIPTION: &'static str = "Disables L2 cache next/previous line prefetching. May improve benchmark scores in memory-sensitive tests by preventing speculative cache fills. Most effective when running benchmarks with non-sequential memory access patterns.";

/// The option table of the "Up/Down Prefetcher Control" tweak: each option with the register
/// bits it sets or clears, in order.
pub open spec fn disable_up_down_prefetcher_table() -> Seq<(OptionView, Seq<MsrState>)> {
    seq![
        (OptionView::Enabled(false), seq![
            MsrState { index: 0xC0000108, bit: 5, state: false },
        ]),
        (OptionView::Enabled(true), seq![
            MsrState { index: 0xC0000108, bit: 5, state: true },
        ]),
    ]
}

/// The "Up/Down Prefetcher Control" tweak as `disable_up_down_prefetcher` builds it.
#[verifier::opaque]
pub open spec fn is_disable_up_down_prefetcher(t: Tweak) -> bool {
    &&& fresh_tweak(t, "Up/Down Prefetcher Control", DISABLE_UP_DOWN_PREFETCHER_DESCRIPTION@, TweakCategory::Cpu, false)
    &&& option_views(t.options@) == seq![OptionView::Enabled(false), OptionView::Enabled(true)]
    &&& t.state == TweakOption::Enabled(false)
    &&& t.widget == TweakWidget::Toggle
    &&& msr_table(t, TweakId::DisableUpDownPrefetcher, true, disable_up_down_prefetcher_table())
}

/// Builds the "Up/Down Prefetcher Control" tweak.
pub fn disable_up_down_prefetcher() -> (r: Tweak)
    ensures
        is_disable_up_down_prefetcher(r),
{
    let options = vec![
        (TweakOption::Enabled(false), vec![
            MsrState { index: 0xC0000108, bit: 5, state: false },
        ]),
        (TweakOption::Enabled(true), vec![
            MsrState { index: 0xC0000108, bit: 5, state: true },
        ]),
    ];
    proof {
        lemma_indexed_from_identity(options@);
        assert(msr_table_view(options@) =~~= disable_up_down_prefetcher_table());
        assert(entry_keys(options@) =~= seq![OptionView::Enabled(false), OptionView::Enabled(true)]);
    }
    let r = Tweak::msr_tweak(
        "Up/Down Prefetcher Control",
        DISABLE_UP_DOWN_PREFETCHER_DESCRIPTION,
        TweakCategory::Cpu,
        MSRTweak { id: TweakId::DisableUpDownPrefetcher, readable: true, options: msr_options_from(options) },
    );
    proof {
        reveal(is_disable_up_down_prefetcher);
    }
    r
}

/// The description of the "L2 Stream Prefetcher Control" tweak.
pub const DISABLE_L2_STREAM_PREFETCHER_DESCRIPTION: &'static str = "Controls L2 cache sequential line prefetching. Disabling can boost benchmark scores by reducing memory bandwidth usage and preventing cache pollution in tests that don't benefit from sequential prefetch.";

/// The option table of the "L2 Stream Prefetcher Control" tweak: each option with the register
/// bits it sets or clears, in order.
pub open spec fn disable_l2_stream_prefetcher_table() -> Seq<(OptionView, Seq<MsrState>)> {
    seq![
        (OptionView::Enabled(false), seq![
            MsrState { index: 0xC0000108, bit: 3, state: false },
        ]),
        (OptionView::Enabled(true), seq![
            MsrState { index: 0xC0000108, bit: 3, state: true },
        ]),
    ]
}

/// The "L2 Stream Prefetcher Control" tweak as `disable_l2_stream_prefetcher` builds it.
#[verifier::opaque]
pub open spec fn is_disable_l2_stream_prefetcher(t: Tweak) -> bool {
    &&& fresh_tweak(t, "L2 Stream Prefetcher Control", DISABLE_L2_STREAM_PREFETCHER_DESCRIPTION@, TweakCategory::Cpu, false)
    &&& option_views(t.options@) == seq![OptionView::Enabled(false), OptionView::Enabled(true)]
    &&& t.state == TweakOption::Enabled(false)
    &&& t.widget == TweakWidget::Toggle
    &&& msr_table(t, TweakId::DisableL2StreamPrefetcher, true, disable_l2_stream_prefetcher_table())
}

/// Builds the "L2 Stream Prefetcher Control" tweak.
pub fn disable_l2_stream_prefetcher() -> (r: Tweak)
    ensures
        is_disable_l2_stream_prefetcher(r),
{
    let options = vec![
        (TweakOption::Enabled(false), vec![
            MsrState { index: 0xC0000108, bit: 3, state: false },
        ]),
        (TweakOption::Enabled(true), vec![
            MsrState { index: 0xC0000108, bit: 3, state: true },
        ]),
    ];
    proof {
        lemma_indexed_from_identity(options@);
        assert(msr_table_view(options@) =~~= disable_l2_stream_prefetcher_table());
        assert(entry_keys(options@) =~= seq![OptionView::Enabled(false), OptionView::Enabled(true)]);
    }
    let r = Tweak::msr_tweak(
        "L2 Stream Prefetcher Control",
        DISABLE_L2_STREAM_PREFETCHER_DESCRIPTION,
        TweakCategory::Cpu,
        MSRTweak { id: TweakId::DisableL2StreamPrefetcher, readable: true, options: msr_options_from(options) },
    );
    proof {
        reveal(is_disable_l2_stream_prefetcher);
    }
    r
}

/// The description of the "L1 Region Prefetcher Control" tweak.
pub const DISABLE_L1_REGION_PREFETCHER_DESCRIPTION: &'static str = "Controls L1 region-based prefetching. Disabling can improve benchmark performance by preventing unwanted cache fills in memory-intensive tests, especially effective in benchmarks with irregular access patterns.";

/// The option table of the "L1 Region Prefetcher Control" tweak: each option with the register
/// bits it sets or clears, in order.
pub open spec fn disable_l1_region_prefetcher_table() -> Seq<(OptionView, Seq<MsrState>)> {
    seq![
        (OptionView::Enabled(false), seq![
            MsrState { index: 0xC0000108, bit: 2, state: false },
        ]),
        (OptionView::Enabled(true), seq![
            MsrState { index: 0xC0000108, bit: 2, state: true },
        ]),
    ]
}

/// The "L1 Region Prefetcher Control" tweak as `disable_l1_region_prefetcher` builds it.
#[verifier::opaque]
pub open spec fn is_disable_l1_region_prefetcher(t: Tweak) -> bool {
    &&& fresh_tweak(t, "L1 Region Prefetcher Control", DISABLE_L1_REGION_PREFETCHER_DESCRIPTION@, TweakCategory::Cpu, false)
    &&& option_views(t.options@) == seq![OptionView::Enabled(false), OptionView::Enabled(true)]
    &&& t.state == TweakOption::Enabled(false)
    &&& t.widget == TweakWidget::Toggle
    &&& msr_table(t, TweakId::DisableL1RegionPrefetcher, true, disable_l1_region_prefetcher_table())
}

/// Builds the "L1 Region Prefetcher Control" tweak.
pub fn disable_l1_region_prefetcher() -> (r: Tweak)
    ensures
        is_disable_l1_region_prefetcher(r),
{
    let options = vec![
        (TweakOption::Enabled(false), vec![
            MsrState { index: 0xC0000108, bit: 2, state: false },
        ]),
        (TweakOption::Enabled(true), vec![
            MsrState { index: 0xC0000108, bit: 2, state: true },
        ]),
    ];
    proof {
        lemma_indexed_from_identity(options@);
        assert(msr_table_view(options@) =~~= disable_l1_region_prefetcher_table());
        assert(entry_keys(options@) =~= seq![OptionView::Enabled(false), OptionView::Enabled(true)]);
    }
    let r = Tweak::msr_tweak(
        "L1 Region Prefetcher Control",
        DISABLE_L1_REGION_PREFETCHER_DESCRIPTION,
        TweakCategory::Cpu,
        MSRTweak { id: TweakId::DisableL1RegionPrefetcher, readable: true, options: msr_options_from(options) },
    );
    proof {
        reveal(is_disable_l1_region_prefetcher);
    }
    r
}

/// The description of the "L1 Stride Prefetcher Control" tweak.
pub const DISABLE_L1_STRIDE_PREFETCHER_DESCRIPTION: &'static str = "Controls L1 stride-pattern prefetching. Disable for potentially higher benchmark scores in tests where precise cache control is beneficial. Most effective in benchmarks that don't rely on regular stride patterns.";

/// The option table of the "L1 Stride Prefetcher Control" tweak: each option with the register
/// bits it sets or clears, in order.
pub open spec fn disable_l1_stride_prefetcher_table() -> Seq<(OptionView, Seq<MsrState>)> {
    seq![
        (OptionView::Enabled(false), seq![
            MsrState { index: 0xC0000108, bit: 1, state: false },
        ]),
        (OptionView::Enabled(true), seq![
            MsrState { index: 0xC0000108, bit: 1, state: true },
        ]),
    ]
}

/// The "L1 Stride Prefetcher Control" tweak as `disable_l1_stride_prefetcher` builds it.
#[verifier::opaque]
pub open spec fn is_disable_l1_stride_prefetcher(t: Tweak) -> bool {
    &&& fresh_tweak(t, "L1 Stride Prefetcher Control", DISABLE_L1_STRIDE_PREFETCHER_DESCRIPTION@, TweakCategory::Cpu, false)
    &&& option_views(t.options@) == seq![OptionView::Enabled(false), OptionView::Enabled(true)]
    &&& t.state == TweakOption::Enabled(false)
    &&& t.widget == TweakWidget::Toggle
    &&& msr_table(t, TweakId::DisableL1StridePrefetcher, true, disable_l1_stride_prefetcher_table())
}

/// Builds the "L1 Stride Prefetcher Control" tweak.
pub fn disable_l1_stride_prefetcher() -> (r: Tweak)
    ensures
        is_disable_l1_stride_prefetcher(r),
{
    let options = vec![
        (TweakOption::Enabled(false), vec![
            MsrState { index: 0xC0000108, bit: 1, state: false },
        ]),
        (TweakOption::Enabled(true), vec![
            MsrState { index: 0xC0000108, bit: 1, state: true },
        ]),
    ];
    proof {
        lemma_indexed_from_identity(options@);
        assert(msr_table_view(options@) =~~= disable_l1_stride_prefetcher_table());
        assert(entry_keys(options@) =~= seq![OptionView::Enabled(false), OptionView::Enabled(true)]);
    }
    let r = Tweak::msr_tweak(
        "L1 Stride Prefetcher Control",
        DISABLE_L1_STRIDE_PREFETCHER_DESCRIPTION,
        TweakCategory::Cpu,
        MSRTweak { id: TweakId::DisableL1StridePrefetcher, readable: true, options: msr_options_from(options) },
    );
    proof {
        reveal(is_disable_l1_stride_prefetcher);
    }
    r
}

/// The description of the "L1 Stream Prefetcher Control" tweak.
pub const DISABLE_L1_STREAM_PREFETCHER_DESCRIPTION: &'static str = "Controls L1 sequential prefetching. Disabling may increase benchmark scores by reducing cache pollution and memory bandwidth usage. Particularly effective for memory benchmarks where maximum control over cache behavior is desired.";

/// The option table of the "L1 Stream Prefetcher Control" tweak: each option with the register
/// bits it sets or clears, in order.
pub open spec fn disable_l1_stream_prefetcher_table() -> Seq<(OptionView, Seq<MsrState>)> {
    seq![
        (OptionView::Enabled(false), seq![
            MsrState { index: 0xC0000108, bit: 0, state: false },
        ]),
        (OptionView::Enabled(true), seq![
            MsrState { index: 0xC0000108, bit: 0, state: true },
        ]),
    ]
}

/// The "L1 Stream Prefetcher Control" tweak as `disable_l1_stream_prefetcher` builds it.
#[verifier::opaque]
pub open spec fn is_disable_l1_stream_prefetcher(t: Tweak) -> bool {
    &&& fresh_tweak(t, "L1 Stream Prefetcher Control", DISABLE_L1_STREAM_PREFETCHER_DESCRIPTION@, TweakCategory::Cpu, false)
    &&& option_views(t.options@) == seq![OptionView::Enabled(false), OptionView::Enabled(true)]
    &&& t.state == TweakOption::Enabled(false)
    &&& t.widget == TweakWidget::Toggle
    &&& msr_table(t, TweakId::DisableL1StreamPrefetcher, true, disable_l1_stream_prefetcher_table())
}

/// Builds the "L1 Stream Prefetcher Control" tweak.
pub fn disable_l1_stream_prefetcher() -> (r: Tweak)
    ensures
        is_disable_l1_stream_prefetcher(r),
{
    let options = vec![
        (TweakOption::Enabled(false), vec![
            MsrState { index: 0xC0000108, bit: 0, state: false },
        ]),
        (TweakOption::Enabled(true), vec![
            MsrState { index: 0xC0000108, bit: 0, state: true },
        ]),
    ];
    proof {
        lemma_indexed_from_identity(options@);
        assert(msr_table_view(options@) =~~= disable_l1_stream_prefetcher_table());
        assert(entry_keys(options@) =~= seq![OptionView::Enabled(false), OptionView::Enabled(true)]);
    }
    let r = Tweak::msr_tweak(
        "L1 Stream Prefetcher Control",
        DISABLE_L1_STREAM_PREFETCHER_DESCRIPTION,
        TweakCategory::Cpu,
        MSRTweak { id: TweakId::DisableL1StreamPrefetcher, readable: true, options: msr_options_from(options) },
    );
    proof {
        reveal(is_disable_l1_stream_prefetcher);
    }
    r
}

} // verus!
