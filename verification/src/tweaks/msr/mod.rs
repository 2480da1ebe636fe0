//! The register tweaks: each is a table of options, and each option a list
//! of model-specific-register bits to set or clear on every core.
pub mod cache;
pub mod method;
pub mod prefetch;

use vstd::prelude::*;
use vstd::string::StringExecFns;
use crate::indexed::{
    entry_keys, lemma_indexed_from_identity, msr_options_from,
};
use crate::tweaks::{
    fresh_tweak, msr_table, option_views, OptionView, Tweak, TweakCategory, TweakId, TweakOption,
    TweakWidget,
};
use crate::tweaks::catalog::{fixed_tweak, push_fixed};
use crate::tweaks::table::table_ids;
use cache::{disable_opcache, disable_tlb_cache, enable_l3_code_data_prioritization};
use prefetch::{
    disable_l1_region_prefetcher, disable_l1_stream_prefetcher, disable_l1_stride_prefetcher,
    disable_l2_stream_prefetcher, disable_up_down_prefetcher, prefetch_aggressiveness_profile,
};
use method::{msr_table_view, MSRTweak, MsrState};

verus! {

/// The description of the "Automatic IBRS Control" tweak.
pub const AUTOMATIC_IBRS_ENABLE_DESCRIPTION: &'static str = "Controls automatic Indirect Branch Restricted Speculation in kernel mode. Disabling this can reduce CPU overhead from automatic branch prediction restrictions, potentially improving performance in cpu-intensive workloads and benchmarks.";

/// The option table of the "Automatic IBRS Control" tweak: each option with the register
/// bits it sets or clears, in order.
pub open spec fn automatic_ibrs_enable_table() -> Seq<(OptionView, Seq<MsrState>)> {
    seq![
        (OptionView::Enabled(false), seq![
            MsrState { index: 0xC0000080, bit: 21, state: false },
        ]),
        (OptionView::Enabled(true), seq![
            MsrState { index: 0xC0000080, bit: 21, state: true },
        ]),
    ]
}

/// The "Automatic IBRS Control" tweak as `automatic_ibrs_enable` builds it.
#[verifier::opaque]
pub open spec fn is_automatic_ibrs_enable(t: Tweak) -> bool {
    &&& fresh_tweak(t, "Automatic IBRS Control", AUTOMATIC_IBRS_ENABLE_DESCRIPTION@, TweakCategory::Cpu, false)
    &&& option_views(t.options@) == seq![OptionView::Enabled(false), OptionView::Enabled(true)]
    &&& t.state == TweakOption::Enabled(false)
    &&& t.widget == TweakWidget::Toggle
    &&& msr_table(t, TweakId::AutomaticIbrsEnable, true, automatic_ibrs_enable_table())
}

/// Builds the "Automatic IBRS Control" tweak.
pub fn automatic_ibrs_enable() -> (r: Tweak)
    ensures
        is_automatic_ibrs_enable(r),
{
    let options = vec![
        (TweakOption::Enabled(false), vec![
            MsrState { index: 0xC0000080, bit: 21, state: false },
        ]),
        (TweakOption::Enabled(true), vec![
            MsrState { index: 0xC0000080, bit: 21, state: true },
        ]),
    ];
    proof {
        lemma_indexed_from_identity(options@);
        assert(msr_table_view(options@) =~~= automatic_ibrs_enable_table());
        assert(entry_keys(options@) =~= seq![OptionView::Enabled(false), OptionView::Enabled(true)]);
    }
    let r = Tweak::msr_tweak(
        "Automatic IBRS Control",
        AUTOMATIC_IBRS_ENABLE_DESCRIPTION,
        TweakCategory::Cpu,
        MSRTweak { id: TweakId::AutomaticIbrsEnable, readable: true, options: msr_options_from(options) },
    );
    proof {
        reveal(is_automatic_ibrs_enable);
    }
    r
}

/// The description of the "Enable Interruptible WBINVD" tweak.
pub const ENABLE_INTERRUPTIBLE_WBINVD_DESCRIPTION: &'static str = "Makes the Write-Back and Invalidate Cache (WBINVD) instruction interruptible, reducing system stall time during cache flushes. This can significantly improve system responsiveness during cache maintenance operations.";

/// The option table of the "Enable Interruptible WBINVD" tweak: each option with the register
/// bits it sets or clears, in order.
pub open spec fn enable_interruptible_wbinvd_table() -> Seq<(OptionView, Seq<MsrState>)> {
    seq![
        (OptionView::Enabled(false), seq![
            MsrState { index: 0xC0000080, bit: 18, state: false },
        ]),
        (OptionView::Enabled(true), seq![
            MsrState { index: 0xC0000080, bit: 18, state: true },
        ]),
    ]
}

/// The "Enable Interruptible WBINVD" tweak as `enable_interruptible_wbinvd` builds it.
#[verifier::opaque]
pub open spec fn is_enable_interruptible_wbinvd(t: Tweak) -> bool {
    &&& fresh_tweak(t, "Enable Interruptible WBINVD", ENABLE_INTERRUPTIBLE_WBINVD_DESCRIPTION@, TweakCategory::Cpu, false)
    &&& option_views(t.options@) == seq![OptionView::Enabled(false), OptionView::Enabled(true)]
    &&& t.state == TweakOption::Enabled(false)
    &&& t.widget == TweakWidget::Toggle
    &&& msr_table(t, TweakId::EnableInterruptibleWbinvd, true, enable_interruptible_wbinvd_table())
}

/// Builds the "Enable Interruptible WBINVD" tweak.
pub fn enable_interruptible_wbinvd() -> (r: Tweak)
    ensures
        is_enable_interruptible_wbinvd(r),
{
    let options = vec![
        (TweakOption::Enabled(false), vec![
            MsrState { index: 0xC0000080, bit: 18, state: false },
        ]),
        (TweakOption::Enabled(true), vec![
            MsrState { index: 0xC0000080, bit: 18, state: true },
        ]),
    ];
    proof {
        lemma_indexed_from_identity(options@);
        assert(msr_table_view(options@) =~~= enable_interruptible_wbinvd_table());
        assert(entry_keys(options@) =~= seq![OptionView::Enabled(false), OptionView::Enabled(true)]);
    }
    let r = Tweak::msr_tweak(
        "Enable Interruptible WBINVD",
        ENABLE_INTERRUPTIBLE_WBINVD_DESCRIPTION,
        TweakCategory::Cpu,
        MSRTweak { id: TweakId::EnableInterruptibleWbinvd, readable: true, options: msr_options_from(options) },
    );
    proof {
        reveal(is_enable_interruptible_wbinvd);
    }
    r
}

/// The description of the "Translation Cache Extension Enable" tweak.
pub const TRANSLATION_CACHE_EXTENSION_ENABLE_DESCRIPTION: &'static str = "Optimizes INVLPG instruction behavior to only invalidate PDC entries related to the specified linear address instead of all entries. This can improve performance in scenarios with frequent TLB invalidations.";

/// The option table of the "Translation Cache Extension Enable" tweak: each option with the register
/// bits it sets or clears, in order.
pub open spec fn translation_cache_extension_enable_table() -> Seq<(OptionView, Seq<MsrState>)> {
    seq![
        (OptionView::Enabled(false), seq![
            MsrState { index: 0xC0000080, bit: 15, state: false },
        ]),
        (OptionView::Enabled(true), seq![
            MsrState { index: 0xC0000080, bit: 15, state: true },
        ]),
    ]
}

/// The "Translation Cache Extension Enable" tweak as `translation_cache_extension_enable` builds it.
#[verifier::opaque]
pub open spec fn is_translation_cache_extension_enable(t: Tweak) -> bool {
    &&& fresh_tweak(t, "Translation Cache Extension Enable", TRANSLATION_CACHE_EXTENSION_ENABLE_DESCRIPTION@, TweakCategory::Cpu, false)
    &&& option_views(t.options@) == seq![OptionView::Enabled(false), OptionView::Enabled(true)]
    &&& t.state == TweakOption::Enabled(false)
    &&& t.widget == TweakWidget::Toggle
    &&& msr_table(t, TweakId::EnableTranslationCacheExtension, true, translation_cache_extension_enable_table())
}

/// Builds the "Translation Cache Extension Enable" tweak.
pub fn translation_cache_extension_enable() -> (r: Tweak)
    ensures
        is_translation_cache_extension_enable(r),
{
    let options = vec![
        (TweakOption::Enabled(false), vec![
            MsrState { index: 0xC0000080, bit: 15, state: false },
        ]),
        (TweakOption::Enabled(true), vec![
            MsrState { index: 0xC0000080, bit: 15, state: true },
        ]),
    ];
    proof {
        lemma_indexed_from_identity(options@);
        assert(msr_table_view(options@) =~~= translation_cache_extension_enable_table());
        assert(entry_keys(options@) =~= seq![OptionView::Enabled(false), OptionView::Enabled(true)]);
    }
    let r = Tweak::msr_tweak(
        "Translation Cache Extension Enable",
        TRANSLATION_CACHE_EXTENSION_ENABLE_DESCRIPTION,
        TweakCategory::Cpu,
        MSRTweak { id: TweakId::EnableTranslationCacheExtension, readable: true, options: msr_options_from(options) },
    );
    proof {
        reveal(is_translation_cache_extension_enable);
    }
    r
}

/// The description of the "Enable Fast FXSAVE/FRSTOR" tweak.
pub const ENABLE_FAST_FXSAVE_FRSTOR_DESCRIPTION: &'static str = "Enables optimized handling of FPU and SSE state save/restore operations in 64-bit mode. This can significantly improve context switch performance in applications using floating-point or SIMD instructions.";

/// The option table of the "Enable Fast FXSAVE/FRSTOR" tweak: each option with the register
/// bits it sets or clears, in order.
pub open spec fn enable_fast_fxsave_frstor_table() -> Seq<(OptionView, Seq<MsrState>)> {
    seq![
        (OptionView::Enabled(false), seq![
            MsrState { index: 0xC0000080, bit: 14, state: false },
        ]),
        (OptionView::Enabled(true), seq![
            MsrState { index: 0xC0000080, bit: 14, state: true },
        ]),
    ]
}

/// The "Enable Fast FXSAVE/FRSTOR" tweak as `enable_fast_fxsave_frstor` builds it.
#[verifier::opaque]
pub open spec fn is_enable_fast_fxsave_frstor(t: Tweak) -> bool {
    &&& fresh_tweak(t, "Enable Fast FXSAVE/FRSTOR", ENABLE_FAST_FXSAVE_FRSTOR_DESCRIPTION@, TweakCategory::Cpu, false)
    &&& option_views(t.options@) == seq![OptionView::Enabled(false), OptionView::Enabled(true)]
    &&& t.state == TweakOption::Enabled(false)
    &&& t.widget == TweakWidget::Toggle
    &&& msr_table(t, TweakId::EnableFastFxsaveFrstor, true, enable_fast_fxsave_frstor_table())
}

/// Builds the "Enable Fast FXSAVE/FRSTOR" tweak.
pub fn enable_fast_fxsave_frstor() -> (r: Tweak)
    ensures
        is_enable_fast_fxsave_frstor(r),
{
    let options = vec![
        (TweakOption::Enabled(false), vec![
            MsrState { index: 0xC0000080, bit: 14, state: false },
        ]),
        (TweakOption::Enabled(true), vec![
            MsrState { index: 0xC0000080, bit: 14, state: true },
        ]),
    ];
    proof {
        lemma_indexed_from_identity(options@);
        assert(msr_table_view(options@) =~~= enable_fast_fxsave_frstor_table());
        assert(entry_keys(options@) =~= seq![OptionView::Enabled(false), OptionView::Enabled(true)]);
    }
    let r = Tweak::msr_tweak(
        "Enable Fast FXSAVE/FRSTOR",
        ENABLE_FAST_FXSAVE_FRSTOR_DESCRIPTION,
        TweakCategory::Cpu,
        MSRTweak { id: TweakId::EnableFastFxsaveFrstor, readable: true, options: msr_options_from(options) },
    );
    proof {
        reveal(is_enable_fast_fxsave_frstor);
    }
    r
}

/// The description of the "Enable MTRR Fixed DRAM Modification" tweak.
pub const ENABLE_MTRR_FIXED_DRAM_MODIFICATION_DESCRIPTION: &'static str = "Enables modification of fixed Memory Type Range Registers (MTRRs) RdDram and WrDram attributes. This allows customization of cache behavior for fixed memory ranges, typically used during BIOS initialization for optimal memory subsystem configuration.";

/// The option table of the "Enable MTRR Fixed DRAM Modification" tweak: each option with the register
/// bits it sets or clears, in order.
pub open spec fn enable_mtrr_fixed_dram_modification_table() -> Seq<(OptionView, Seq<MsrState>)> {
    seq![
        (OptionView::Enabled(false), seq![
            MsrState { index: 0xC0010010, bit: 19, state: false },
        ]),
        (OptionView::Enabled(true), seq![
            MsrState { index: 0xC0010010, bit: 19, state: true },
        ]),
    ]
}

/// The "Enable MTRR Fixed DRAM Modification" tweak as `enable_mtrr_fixed_dram_modification` builds it.
#[verifier::opaque]
pub open spec fn is_enable_mtrr_fixed_dram_modification(t: Tweak) -> bool {
    &&& fresh_tweak(t, "Enable MTRR Fixed DRAM Modification", ENABLE_MTRR_FIXED_DRAM_MODIFICATION_DESCRIPTION@, TweakCategory::Cpu, false)
    &&& option_views(t.options@) == seq![OptionView::Enabled(false), OptionView::Enabled(true)]
    &&& t.state == TweakOption::Enabled(false)
    &&& t.widget == TweakWidget::Toggle
    &&& msr_table(t, TweakId::EnableMtrrFixedDramModification, true, enable_mtrr_fixed_dram_modification_table())
}

/// Builds the "Enable MTRR Fixed DRAM Modification" tweak.
pub fn enable_mtrr_fixed_dram_modification() -> (r: Tweak)
    ensures
        is_enable_mtrr_fixed_dram_modification(r),
{
    let options = vec![
        (TweakOption::Enabled(false), vec![
            MsrState { index: 0xC0010010, bit: 19, state: false },
        ]),
        (TweakOption::Enabled(true), vec![
            MsrState { index: 0xC0010010, bit: 19, state: true },
        ]),
    ];
    proof {
        lemma_indexed_from_identity(options@);
        assert(msr_table_view(options@) =~~= enable_mtrr_fixed_dram_modification_table());
        assert(entry_keys(options@) =~= seq![OptionView::Enabled(false), OptionView::Enabled(true)]);
    }
    let r = Tweak::msr_tweak(
        "Enable MTRR Fixed DRAM Modification",
        ENABLE_MTRR_FIXED_DRAM_MODIFICATION_DESCRIPTION,
        TweakCategory::Cpu,
        MSRTweak { id: TweakId::EnableMtrrFixedDramModification, readable: true, options: msr_options_from(options) },
    );
    proof {
        reveal(is_enable_mtrr_fixed_dram_modification);
    }
    r
}

/// The description of the "Enable MTRR Fixed DRAM Attributes" tweak.
pub const ENABLE_MTRR_FIXED_DRAM_ATTRIBUTES_DESCRIPTION: &'static str = "Enables the RdDram and WrDram attributes in fixed Memory Type Range Registers (MTRRs). This allows separate read and write caching policies for fixed memory ranges, enabling more sophisticated memory access optimizations.";

/// The option table of the "Enable MTRR Fixed DRAM Attributes" tweak: each option with the register
/// bits it sets or clears, in order.
pub open spec fn enable_mtrr_fixed_dram_attributes_table() -> Seq<(OptionView, Seq<MsrState>)> {
    seq![
        (OptionView::Enabled(false), seq![
            MsrState { index: 0xC0010010, bit: 18, state: false },
        ]),
        (OptionView::Enabled(true), seq![
            MsrState { index: 0xC0010010, bit: 18, state: true },
        ]),
    ]
}

/// The "Enable MTRR Fixed DRAM Attributes" tweak as `enable_mtrr_fixed_dram_attributes` builds it.
#[verifier::opaque]
pub open spec fn is_enable_mtrr_fixed_dram_attributes(t: Tweak) -> bool {
    &&& fresh_tweak(t, "Enable MTRR Fixed DRAM Attributes", ENABLE_MTRR_FIXED_DRAM_ATTRIBUTES_DESCRIPTION@, TweakCategory::Cpu, false)
    &&& option_views(t.options@) == seq![OptionView::Enabled(false), OptionView::Enabled(true)]
    &&& t.state == TweakOption::Enabled(false)
    &&& t.widget == TweakWidget::Toggle
    &&& msr_table(t, TweakId::EnableMtrrFixedDramAttributes, true, enable_mtrr_fixed_dram_attributes_table())
}

/// Builds the "Enable MTRR Fixed DRAM Attributes" tweak.
pub fn enable_mtrr_fixed_dram_attributes() -> (r: Tweak)
    ensures
        is_enable_mtrr_fixed_dram_attributes(r),
{
    let options = vec![
        (TweakOption::Enabled(false), vec![
            MsrState { index: 0xC0010010, bit: 18, state: false },
        ]),
        (TweakOption::Enabled(true), vec![
            MsrState { index: 0xC0010010, bit: 18, state: true },
        ]),
    ];
    proof {
        lemma_indexed_from_identity(options@);
        assert(msr_table_view(options@) =~~= enable_mtrr_fixed_dram_attributes_table());
        assert(entry_keys(options@) =~= seq![OptionView::Enabled(false), OptionView::Enabled(true)]);
    }
    let r = Tweak::msr_tweak(
        "Enable MTRR Fixed DRAM Attributes",
        ENABLE_MTRR_FIXED_DRAM_ATTRIBUTES_DESCRIPTION,
        TweakCategory::Cpu,
        MSRTweak { id: TweakId::EnableMtrrFixedDramAttributes, readable: true, options: msr_options_from(options) },
    );
    proof {
        reveal(is_enable_mtrr_fixed_dram_attributes);
    }
    r
}

/// The description of the "Disable Control-Flow Enforcement" tweak.
pub const DISABLE_CONTROL_FLOW_ENFORCEMENT_DESCRIPTION: &'static str = "Disables Control-flow Enforcement Technology (CET). While this removes protection against control-flow hijacking attacks, it eliminates the performance overhead associated with shadow stacks and indirect branch tracking.";

/// The option table of the "Disable Control-Flow Enforcement" tweak: each option with the register
/// bits it sets or clears, in order.
pub open spec fn disable_control_flow_enforcement_table() -> Seq<(OptionView, Seq<MsrState>)> {
    seq![
        (OptionView::Enabled(false), seq![
            MsrState { index: 0x00000DA0, bit: 12, state: false },
        ]),
        (OptionView::Choice("Disabled"@), seq![
            MsrState { index: 0x00000DA0, bit: 12, state: true },
        ]),
    ]
}

/// The "Disable Control-Flow Enforcement" tweak as `disable_control_flow_enforcement` builds it.
#[verifier::opaque]
pub open spec fn is_disable_control_flow_enforcement(t: Tweak) -> bool {
    &&& fresh_tweak(t, "Disable Control-Flow Enforcement", DISABLE_CONTROL_FLOW_ENFORCEMENT_DESCRIPTION@, TweakCategory::Cpu, false)
    &&& option_views(t.options@) == seq![OptionView::Enabled(false), OptionView::Choice("Disabled"@)]
    &&& t.state == TweakOption::Enabled(false)
    &&& t.widget == TweakWidget::Toggle
    &&& msr_table(t, TweakId::DisbleControlFlowEnforcement, true, disable_control_flow_enforcement_table())
}

/// Builds the "Disable Control-Flow Enforcement" tweak.
pub fn disable_control_flow_enforcement() -> (r: Tweak)
    ensures
        is_disable_control_flow_enforcement(r),
{
    let options = vec![
        (TweakOption::Enabled(false), vec![
            MsrState { index: 0x00000DA0, bit: 12, state: false },
        ]),
        (TweakOption::Option(String::from_str("Disabled")), vec![
            MsrState { index: 0x00000DA0, bit: 12, state: true },
        ]),
    ];
    proof {
        reveal_strlit("Disabled");
        assert("Disabled"@.len() == 8);
        assert(options@[0].0@ == OptionView::Enabled(false));
        assert(options@[1].0@ == OptionView::Choice("Disabled"@));
        assert forall|i: int, j: int| 0 <= i < j < options@.len() implies options@[i].0@ != options@[j].0@ by {
        }
        lemma_indexed_from_identity(options@);
        assert(msr_table_view(options@) =~~= disable_control_flow_enforcement_table());
        assert(entry_keys(options@) =~= seq![OptionView::Enabled(false), OptionView::Choice("Disabled"@)]);
    }
    let r = Tweak::msr_tweak(
        "Disable Control-Flow Enforcement",
        DISABLE_CONTROL_FLOW_ENFORCEMENT_DESCRIPTION,
        TweakCategory::Cpu,
        MSRTweak { id: TweakId::DisbleControlFlowEnforcement, readable: true, options: msr_options_from(options) },
    );
    proof {
        reveal(is_disable_control_flow_enforcement);
    }
    r
}

/// The description of the "Disable MCA Status Write Enable" tweak.
pub const DISABLE_MCA_STATUS_WRITE_ENABLE_DESCRIPTION: &'static str = "Disables write access to MCA status registers to reduce overhead related to error handling for enhanced performance.";

/// The option table of the "Disable MCA Status Write Enable" tweak: each option with the register
/// bits it sets or clears, in order.
pub open spec fn disable_mca_status_write_enable_table() -> Seq<(OptionView, Seq<MsrState>)> {
    seq![
        (OptionView::Enabled(false), seq![
            MsrState { index: 0xC0010015, bit: 18, state: false },
        ]),
        (OptionView::Choice("Disabled"@), seq![
            MsrState { index: 0xC0010015, bit: 18, state: true },
        ]),
    ]
}

/// The "Disable MCA Status Write Enable" tweak as `disable_mca_status_write_enable` builds it.
#[verifier::opaque]
pub open spec fn is_disable_mca_status_write_enable(t: Tweak) -> bool {
    &&& fresh_tweak(t, "Disable MCA Status Write Enable", DISABLE_MCA_STATUS_WRITE_ENABLE_DESCRIPTION@, TweakCategory::Cpu, false)
    &&& option_views(t.options@) == seq![OptionView::Enabled(false), OptionView::Choice("Disabled"@)]
    &&& t.state == TweakOption::Enabled(false)
    &&& t.widget == TweakWidget::Toggle
    &&& msr_table(t, TweakId::DisableMcaStatusWriteEnable, true, disable_mca_status_write_enable_table())
}

/// Builds the "Disable MCA Status Write Enable" tweak.
pub fn disable_mca_status_write_enable() -> (r: Tweak)
    ensures
        is_disable_mca_status_write_enable(r),
{
    let options = vec![
        (TweakOption::Enabled(false), vec![
            MsrState { index: 0xC0010015, bit: 18, state: false },
        ]),
        (TweakOption::Option(String::from_str("Disabled")), vec![
            MsrState { index: 0xC0010015, bit: 18, state: true },
        ]),
    ];
    proof {
        reveal_strlit("Disabled");
        assert("Disabled"@.len() == 8);
        assert(options@[0].0@ == OptionView::Enabled(false));
        assert(options@[1].0@ == OptionView::Choice("Disabled"@));
        assert forall|i: int, j: int| 0 <= i < j < options@.len() implies options@[i].0@ != options@[j].0@ by {
        }
        lemma_indexed_from_identity(options@);
        assert(msr_table_view(options@) =~~= disable_mca_status_write_enable_table());
        assert(entry_keys(options@) =~= seq![OptionView::Enabled(false), OptionView::Choice("Disabled"@)]);
    }
    let r = Tweak::msr_tweak(
        "Disable MCA Status Write Enable",
        DISABLE_MCA_STATUS_WRITE_ENABLE_DESCRIPTION,
        TweakCategory::Cpu,
        MSRTweak { id: TweakId::DisableMcaStatusWriteEnable, readable: true, options: msr_options_from(options) },
    );
    proof {
        reveal(is_disable_mca_status_write_enable);
    }
    r
}

/// The description of the "Disable Streaming Stores" tweak.
pub const DISABLE_STREAMING_STORES_DESCRIPTION: &'static str = "Disables CPU streaming store operations (non-temporal stores). While this may increase memory bandwidth usage due to cache pollution, it can improve performance in scenarios where data is likely to be reused soon after writing.";

/// The option table of the "Disable Streaming Stores" tweak: each option with the register
/// bits it sets or clears, in order.
pub open spec fn disable_streaming_stores_table() -> Seq<(OptionView, Seq<MsrState>)> {
    seq![
        (OptionView::Enabled(false), seq![
            MsrState { index: 0xC0011020, bit: 28, state: false },
        ]),
        (OptionView::Choice("Disabled"@), seq![
            MsrState { index: 0xC0011020, bit: 28, state: true },
        ]),
    ]
}

/// The "Disable Streaming Stores" tweak as `disable_streaming_stores` builds it.
#[verifier::opaque]
pub open spec fn is_disable_streaming_stores(t: Tweak) -> bool {
    &&& fresh_tweak(t, "Disable Streaming Stores", DISABLE_STREAMING_STORES_DESCRIPTION@, TweakCategory::Cpu, false)
    &&& option_views(t.options@) == seq![OptionView::Enabled(false), OptionView::Choice("Disabled"@)]
    &&& t.state == TweakOption::Enabled(false)
    &&& t.widget == TweakWidget::Toggle
    &&& msr_table(t, TweakId::DisableStreamingStores, true, disable_streaming_stores_table())
}

/// Builds the "Disable Streaming Stores" tweak.
pub fn disable_streaming_stores() -> (r: Tweak)
    ensures
        is_disable_streaming_stores(r),
{
    let options = vec![
        (TweakOption::Enabled(false), vec![
            MsrState { index: 0xC0011020, bit: 28, state: false },
        ]),
        (TweakOption::Option(String::from_str("Disabled")), vec![
            MsrState { index: 0xC0011020, bit: 28, state: true },
        ]),
    ];
    proof {
        reveal_strlit("Disabled");
        assert("Disabled"@.len() == 8);
        assert(options@[0].0@ == OptionView::Enabled(false));
        assert(options@[1].0@ == OptionView::Choice("Disabled"@));
        assert forall|i: int, j: int| 0 <= i < j < options@.len() implies options@[i].0@ != options@[j].0@ by {
        }
        lemma_indexed_from_identity(options@);
        assert(msr_table_view(options@) =~~= disable_streaming_stores_table());
        assert(entry_keys(options@) =~= seq![OptionView::Enabled(false), OptionView::Choice("Disabled"@)]);
    }
    let r = Tweak::msr_tweak(
        "Disable Streaming Stores",
        DISABLE_STREAMING_STORES_DESCRIPTION,
        TweakCategory::Cpu,
        MSRTweak { id: TweakId::DisableStreamingStores, readable: true, options: msr_options_from(options) },
    );
    proof {
        reveal(is_disable_streaming_stores);
    }
    r
}

/// The description of the "Disable Redirect for Return" tweak.
pub const DISABLE_REDIRECT_FOR_RETURN_DESCRIPTION: &'static str = "Disables CPU's Return Stack Buffer (RSB) redirect mechanism. This can improve performance in specific workloads by preventing unnecessary speculation redirects, but may slightly impact branch prediction accuracy.";

/// The option table of the "Disable Redirect for Return" tweak: each option with the register
/// bits it sets or clears, in order.
pub open spec fn disable_redirect_for_return_table() -> Seq<(OptionView, Seq<MsrState>)> {
    seq![
        (OptionView::Enabled(false), seq![
            MsrState { index: 0xC0011029, bit: 14, state: false },
        ]),
        (OptionView::Enabled(true), seq![
            MsrState { index: 0xC0011029, bit: 14, state: true },
        ]),
    ]
}

/// The "Disable Redirect for Return" tweak as `disable_redirect_for_return` builds it.
#[verifier::opaque]
pub open spec fn is_disable_redirect_for_return(t: Tweak) -> bool {
    &&& fresh_tweak(t, "Disable Redirect for Return", DISABLE_REDIRECT_FOR_RETURN_DESCRIPTION@, TweakCategory::Cpu, false)
    &&& option_views(t.options@) == seq![OptionView::Enabled(false), OptionView::Enabled(true)]
    &&& t.state == TweakOption::Enabled(false)
    &&& t.widget == TweakWidget::Toggle
    &&& msr_table(t, TweakId::DisableRedirectForReturn, true, disable_redirect_for_return_table())
}

/// Builds the "Disable Redirect for Return" tweak.
pub fn disable_redirect_for_return() -> (r: Tweak)
    ensures
        is_disable_redirect_for_return(r),
{
    let options = vec![
        (TweakOption::Enabled(false), vec![
            MsrState { index: 0xC0011029, bit: 14, state: false },
        ]),
        (TweakOption::Enabled(true), vec![
            MsrState { index: 0xC0011029, bit: 14, state: true },
        ]),
    ];
    proof {
        lemma_indexed_from_identity(options@);
        assert(msr_table_view(options@) =~~= disable_redirect_for_return_table());
        assert(entry_keys(options@) =~= seq![OptionView::Enabled(false), OptionView::Enabled(true)]);
    }
    let r = Tweak::msr_tweak(
        "Disable Redirect for Return",
        DISABLE_REDIRECT_FOR_RETURN_DESCRIPTION,
        TweakCategory::Cpu,
        MSRTweak { id: TweakId::DisableRedirectForReturn, readable: true, options: msr_options_from(options) },
    );
    proof {
        reveal(is_disable_redirect_for_return);
    }
    r
}

/// The description of the "Speculative Store Modes" tweak.
pub const CPU_SPECULATIVE_STORE_MODES_DESCRIPTION: &'static str = "Enables more aggressive store-to-load forwarding and memory disambiguation. Can improve performance in memory-intensive workloads at the cost of potentially higher power consumption and slightly increased risk of memory ordering violations.";

/// The option table of the "Speculative Store Modes" tweak: each option with the register
/// bits it sets or clears, in order.
pub open spec fn cpu_speculative_store_modes_table() -> Seq<(OptionView, Seq<MsrState>)> {
    seq![
        (OptionView::Choice("Balanced"@), seq![
            MsrState { index: 0xC00110EC, bit: 0, state: false },
            MsrState { index: 0xC00110E5, bit: 26, state: false },
        ]),
        (OptionView::Choice("Less Speculative"@), seq![
            MsrState { index: 0xC00110EC, bit: 0, state: false },
            MsrState { index: 0xC00110E5, bit: 26, state: true },
        ]),
        (OptionView::Choice("More Speculative"@), seq![
            MsrState { index: 0xC00110EC, bit: 0, state: true },
            MsrState { index: 0xC00110E5, bit: 26, state: true },
        ]),
    ]
}

/// The "Speculative Store Modes" tweak as `cpu_speculative_store_modes` builds it.
#[verifier::opaque]
pub open spec fn is_cpu_speculative_store_modes(t: Tweak) -> bool {
    &&& fresh_tweak(t, "Speculative Store Modes", CPU_SPECULATIVE_STORE_MODES_DESCRIPTION@, TweakCategory::Cpu, false)
    &&& option_views(t.options@) == seq![OptionView::Choice("Balanced"@), OptionView::Choice("Less Speculative"@), OptionView::Choice("More Speculative"@)]
    &&& t.state == TweakOption::Enabled(false)
    &&& t.widget == TweakWidget::SettingsComboBox
    &&& msr_table(t, TweakId::SpeculativeStoreModes, true, cpu_speculative_store_modes_table())
}

/// Builds the "Speculative Store Modes" tweak.
pub fn cpu_speculative_store_modes() -> (r: Tweak)
    ensures
        is_cpu_speculative_store_modes(r),
{
    let options = vec![
        (TweakOption::Option(String::from_str("Balanced")), vec![
            MsrState { index: 0xC00110EC, bit: 0, state: false },
            MsrState { index: 0xC00110E5, bit: 26, state: false },
        ]),
        (TweakOption::Option(String::from_str("Less Speculative")), vec![
            MsrState { index: 0xC00110EC, bit: 0, state: false },
            MsrState { index: 0xC00110E5, bit: 26, state: true },
        ]),
        (TweakOption::Option(String::from_str("More Speculative")), vec![
            MsrState { index: 0xC00110EC, bit: 0, state: true },
            MsrState { index: 0xC00110E5, bit: 26, state: true },
        ]),
    ];
    proof {
        reveal_strlit("Balanced");
        reveal_strlit("Less Speculative");
        reveal_strlit("More Speculative");
        assert("Balanced"@.len() == 8);
        assert("Less Speculative"@.len() == 16);
        assert("More Speculative"@.len() == 16);
        assert("Less Speculative"@[0] != "More Speculative"@[0]);
        assert(options@[0].0@ == OptionView::Choice("Balanced"@));
        assert(options@[1].0@ == OptionView::Choice("Less Speculative"@));
        assert(options@[2].0@ == OptionView::Choice("More Speculative"@));
        assert forall|i: int, j: int| 0 <= i < j < options@.len() implies options@[i].0@ != options@[j].0@ by {
            if i == 0 && j == 1 {} else if i == 0 && j == 2 {} else {}
        }
        lemma_indexed_from_identity(options@);
        assert(msr_table_view(options@) =~~= cpu_speculative_store_modes_table());
        assert(entry_keys(options@) =~= seq![OptionView::Choice("Balanced"@), OptionView::Choice("Less Speculative"@), OptionView::Choice("More Speculative"@)]);
    }
    let r = Tweak::msr_tweak(
        "Speculative Store Modes",
        CPU_SPECULATIVE_STORE_MODES_DESCRIPTION,
        TweakCategory::Cpu,
        MSRTweak { id: TweakId::SpeculativeStoreModes, readable: true, options: msr_options_from(options) },
    );
    proof {
        reveal(is_cpu_speculative_store_modes);
    }
    r
}

/// The description of the "Disable AVX512" tweak.
pub const DISABLE_AVX512_DESCRIPTION: &'static str = "Disables AVX-512 instruction set extensions. This prevents frequency downclocking that occurs during AVX-512 operations and can improve overall system performance when AVX-512 instructions are not crucial for workload performance.";

/// The option table of the "Disable AVX512" tweak: each option with the register
/// bits it sets or clears, in order.
pub open spec fn disable_avx512_table() -> Seq<(OptionView, Seq<MsrState>)> {
    seq![
        (OptionView::Enabled(false), seq![
            MsrState { index: 0xC0011022, bit: 16, state: false },
            MsrState { index: 0xC0011022, bit: 17, state: false },
            MsrState { index: 0xC0011022, bit: 21, state: false },
            MsrState { index: 0xC0011022, bit: 28, state: false },
            MsrState { index: 0xC0011022, bit: 30, state: false },
            MsrState { index: 0xC0011022, bit: 31, state: false },
        ]),
        (OptionView::Enabled(true), seq![
            MsrState { index: 0xC0011022, bit: 16, state: true },
            MsrState { index: 0xC0011022, bit: 17, state: true },
            MsrState { index: 0xC0011022, bit: 21, state: true },
            MsrState { index: 0xC0011022, bit: 28, state: true },
            MsrState { index: 0xC0011022, bit: 30, state: true },
            MsrState { index: 0xC0011022, bit: 31, state: true },
        ]),
    ]
}

/// The "Disable AVX512" tweak as `disable_avx512` builds it.
#[verifier::opaque]
pub open spec fn is_disable_avx512(t: Tweak) -> bool {
    &&& fresh_tweak(t, "Disable AVX512", DISABLE_AVX512_DESCRIPTION@, TweakCategory::Cpu, false)
    &&& option_views(t.options@) == seq![OptionView::Enabled(false), OptionView::Enabled(true)]
    &&& t.state == TweakOption::Enabled(false)
    &&& t.widget == TweakWidget::Toggle
    &&& msr_table(t, TweakId::DisableAvx512, true, disable_avx512_table())
}

/// Builds the "Disable AVX512" tweak.
pub fn disable_avx512() -> (r: Tweak)
    ensures
        is_disable_avx512(r),
{
    let options = vec![
        (TweakOption::Enabled(false), vec![
            MsrState { index: 0xC0011022, bit: 16, state: false },
            MsrState { index: 0xC0011022, bit: 17, state: false },
            MsrState { index: 0xC0011022, bit: 21, state: false },
            MsrState { index: 0xC0011022, bit: 28, state: false },
            MsrState { index: 0xC0011022, bit: 30, state: false },
            MsrState { index: 0xC0011022, bit: 31, state: false },
        ]),
        (TweakOption::Enabled(true), vec![
            MsrState { index: 0xC0011022, bit: 16, state: true },
            MsrState { index: 0xC0011022, bit: 17, state: true },
            MsrState { index: 0xC0011022, bit: 21, state: true },
            MsrState { index: 0xC0011022, bit: 28, state: true },
            MsrState { index: 0xC0011022, bit: 30, state: true },
            MsrState { index: 0xC0011022, bit: 31, state: true },
        ]),
    ];
    proof {
        lemma_indexed_from_identity(options@);
        assert(msr_table_view(options@) =~~= disable_avx512_table());
        assert(entry_keys(options@) =~= seq![OptionView::Enabled(false), OptionView::Enabled(true)]);
    }
    let r = Tweak::msr_tweak(
        "Disable AVX512",
        DISABLE_AVX512_DESCRIPTION,
        TweakCategory::Cpu,
        MSRTweak { id: TweakId::DisableAvx512, readable: true, options: msr_options_from(options) },
    );
    proof {
        reveal(is_disable_avx512);
    }
    r
}

/// The description of the "Disable Fast Short REP MOVSB" tweak.
pub const DISABLE_FAST_SHORT_REP_MOVSB_DESCRIPTION: &'static str = "Disables optimized handling of short REP MOVSB instructions. While this optimization typically improves small memory copy operations, disabling it can be beneficial when the overhead of enabling the optimization exceeds its benefits in specific workloads.";

/// The option table of the "Disable Fast Short REP MOVSB" tweak: each option with the register
/// bits it sets or clears, in order.
pub open spec fn disable_fast_short_rep_movsb_table() -> Seq<(OptionView, Seq<MsrState>)> {
    seq![
        (OptionView::Enabled(false), seq![
            MsrState { index: 0xC00110DF, bit: 36, state: false },
        ]),
        (OptionView::Enabled(true), seq![
            MsrState { index: 0xC00110DF, bit: 36, state: true },
        ]),
    ]
}

/// The "Disable Fast Short REP MOVSB" tweak as `disable_fast_short_rep_movsb` builds it.
#[verifier::opaque]
pub open spec fn is_disable_fast_short_rep_movsb(t: Tweak) -> bool {
    &&& fresh_tweak(t, "Disable Fast Short REP MOVSB", DISABLE_FAST_SHORT_REP_MOVSB_DESCRIPTION@, TweakCategory::Cpu, false)
    &&& option_views(t.options@) == seq![OptionView::Enabled(false), OptionView::Enabled(true)]
    &&& t.state == TweakOption::Enabled(false)
    &&& t.widget == TweakWidget::Toggle
    &&& msr_table(t, TweakId::DisableFastShortRepMovsb, true, disable_fast_short_rep_movsb_table())
}

/// Builds the "Disable Fast Short REP MOVSB" tweak.
pub fn disable_fast_short_rep_movsb() -> (r: Tweak)
    ensures
        is_disable_fast_short_rep_movsb(r),
{
    let options = vec![
        (TweakOption::Enabled(false), vec![
            MsrState { index: 0xC00110DF, bit: 36, state: false },
        ]),
        (TweakOption::Enabled(true), vec![
            MsrState { index: 0xC00110DF, bit: 36, state: true },
        ]),
    ];
    proof {
        lemma_indexed_from_identity(options@);
        assert(msr_table_view(options@) =~~= disable_fast_short_rep_movsb_table());
        assert(entry_keys(options@) =~= seq![OptionView::Enabled(false), OptionView::Enabled(true)]);
    }
    let r = Tweak::msr_tweak(
        "Disable Fast Short REP MOVSB",
        DISABLE_FAST_SHORT_REP_MOVSB_DESCRIPTION,
        TweakCategory::Cpu,
        MSRTweak { id: TweakId::DisableFastShortRepMovsb, readable: true, options: msr_options_from(options) },
    );
    proof {
        reveal(is_disable_fast_short_rep_movsb);
    }
    r
}

/// The description of the "Disable Enhanced REP MOVSB/STOSB" tweak.
pub const DISABLE_ENHANCED_REP_MOVSB_STOSB_DESCRIPTION: &'static str = "Disables enhanced string operation optimizations for REP MOVSB/STOSB instructions. Can improve performance in workloads where the overhead of enabling these optimizations exceeds their benefits, particularly with small or unaligned memory operations.";

/// The option table of the "Disable Enhanced REP MOVSB/STOSB" tweak: each option with the register
/// bits it sets or clears, in order.
pub open spec fn disable_enhanced_rep_movsb_stosb_table() -> Seq<(OptionView, Seq<MsrState>)> {
    seq![
        (OptionView::Enabled(false), seq![
            MsrState { index: 0xC0011002, bit: 9, state: false },
        ]),
        (OptionView::Enabled(true), seq![
            MsrState { index: 0xC0011002, bit: 9, state: true },
        ]),
    ]
}

/// The "Disable Enhanced REP MOVSB/STOSB" tweak as `disable_enhanced_rep_movsb_stosb` builds it.
#[verifier::opaque]
pub open spec fn is_disable_enhanced_rep_movsb_stosb(t: Tweak) -> bool {
    &&& fresh_tweak(t, "Disable Enhanced REP MOVSB/STOSB", DISABLE_ENHANCED_REP_MOVSB_STOSB_DESCRIPTION@, TweakCategory::Cpu, false)
    &&& option_views(t.options@) == seq![OptionView::Enabled(false), OptionView::Enabled(true)]
    &&& t.state == TweakOption::Enabled(false)
    &&& t.widget == TweakWidget::Toggle
    &&& msr_table(t, TweakId::DisableEnhancedRepMovsbStosb, true, disable_enhanced_rep_movsb_stosb_table())
}

/// Builds the "Disable Enhanced REP MOVSB/STOSB" tweak.
pub fn disable_enhanced_rep_movsb_stosb() -> (r: Tweak)
    ensures
        is_disable_enhanced_rep_movsb_stosb(r),
{
    let options = vec![
        (TweakOption::Enabled(false), vec![
            MsrState { index: 0xC0011002, bit: 9, state: false },
        ]),
        (TweakOption::Enabled(true), vec![
            MsrState { index: 0xC0011002, bit: 9, state: true },
        ]),
    ];
    proof {
        lemma_indexed_from_identity(options@);
        assert(msr_table_view(options@) =~~= disable_enhanced_rep_movsb_stosb_table());
        assert(entry_keys(options@) =~= seq![OptionView::Enabled(false), OptionView::Enabled(true)]);
    }
    let r = Tweak::msr_tweak(
        "Disable Enhanced REP MOVSB/STOSB",
        DISABLE_ENHANCED_REP_MOVSB_STOSB_DESCRIPTION,
        TweakCategory::Cpu,
        MSRTweak { id: TweakId::DisableEnhancedRepMovsbStosb, readable: true, options: msr_options_from(options) },
    );
    proof {
        reveal(is_disable_enhanced_rep_movsb_stosb);
    }
    r
}

/// The description of the "Disable REP-MOV/STOS Streaming" tweak.
pub const DISABLE_REP_MOV_STOS_STREAMING_DESCRIPTION: &'static str = "Disables streaming optimization for REP MOV/STOS instructions. This can improve performance in scenarios where memory operations need to maintain cache coherency or when data is likely to be immediately reused.";

/// The option table of the "Disable REP-MOV/STOS Streaming" tweak: each option with the register
/// bits it sets or clears, in order.
pub open spec fn disable_rep_mov_stos_streaming_table() -> Seq<(OptionView, Seq<MsrState>)> {
    seq![
        (OptionView::Enabled(false), seq![
            MsrState { index: 0xC0011000, bit: 15, state: false },
        ]),
        (OptionView::Enabled(true), seq![
            MsrState { index: 0xC0011000, bit: 15, state: true },
        ]),
    ]
}

/// The "Disable REP-MOV/STOS Streaming" tweak as `disable_rep_mov_stos_streaming` builds it.
#[verifier::opaque]
pub open spec fn is_disable_rep_mov_stos_streaming(t: Tweak) -> bool {
    &&& fresh_tweak(t, "Disable REP-MOV/STOS Streaming", DISABLE_REP_MOV_STOS_STREAMING_DESCRIPTION@, TweakCategory::Cpu, false)
    &&& option_views(t.options@) == seq![OptionView::Enabled(false), OptionView::Enabled(true)]
    &&& t.state == TweakOption::Enabled(false)
    &&& t.widget == TweakWidget::Toggle
    &&& msr_table(t, TweakId::DisableRepMovStosStreaming, true, disable_rep_mov_stos_streaming_table())
}

/// Builds the "Disable REP-MOV/STOS Streaming" tweak.
pub fn disable_rep_mov_stos_streaming() -> (r: Tweak)
    ensures
        is_disable_rep_mov_stos_streaming(r),
{
    let options = vec![
        (TweakOption::Enabled(false), vec![
            MsrState { index: 0xC0011000, bit: 15, state: false },
        ]),
        (TweakOption::Enabled(true), vec![
            MsrState { index: 0xC0011000, bit: 15, state: true },
        ]),
    ];
    proof {
        lemma_indexed_from_identity(options@);
        assert(msr_table_view(options@) =~~= disable_rep_mov_stos_streaming_table());
        assert(entry_keys(options@) =~= seq![OptionView::Enabled(false), OptionView::Enabled(true)]);
    }
    let r = Tweak::msr_tweak(
        "Disable REP-MOV/STOS Streaming",
        DISABLE_REP_MOV_STOS_STREAMING_DESCRIPTION,
        TweakCategory::Cpu,
        MSRTweak { id: TweakId::DisableRepMovStosStreaming, readable: true, options: msr_options_from(options) },
    );
    proof {
        reveal(is_disable_rep_mov_stos_streaming);
    }
    r
}

/// The description of the "Disable Core Watchdog Timer" tweak.
pub const DISABLE_CORE_WATCHDOG_TIMER_DESCRIPTION: &'static str = "Disables the CPU core watchdog timer mechanism. This can reduce overhead from periodic timer interrupts and improve performance in scenarios where system stability monitoring is not critical.";

/// The option table of the "Disable Core Watchdog Timer" tweak: each option with the register
/// bits it sets or clears, in order.
pub open spec fn disable_core_watchdog_timer_table() -> Seq<(OptionView, Seq<MsrState>)> {
    seq![
        (OptionView::Enabled(false), seq![
            MsrState { index: 0xC0010074, bit: 0, state: false },
            MsrState { index: 0xC0010074, bit: 3, state: false },
        ]),
        (OptionView::Enabled(true), seq![
            MsrState { index: 0xC0010074, bit: 0, state: true },
            MsrState { index: 0xC0010074, bit: 3, state: true },
        ]),
    ]
}

/// The "Disable Core Watchdog Timer" tweak as `disable_core_watchdog_timer` builds it.
#[verifier::opaque]
pub open spec fn is_disable_core_watchdog_timer(t: Tweak) -> bool {
    &&& fresh_tweak(t, "Disable Core Watchdog Timer", DISABLE_CORE_WATCHDOG_TIMER_DESCRIPTION@, TweakCategory::Cpu, false)
    &&& option_views(t.options@) == seq![OptionView::Enabled(false), OptionView::Enabled(true)]
    &&& t.state == TweakOption::Enabled(false)
    &&& t.widget == TweakWidget::Toggle
    &&& msr_table(t, TweakId::DisableCoreWatchdogTimer, true, disable_core_watchdog_timer_table())
}

/// Builds the "Disable Core Watchdog Timer" tweak.
pub fn disable_core_watchdog_timer() -> (r: Tweak)
    ensures
        is_disable_core_watchdog_timer(r),
{
    let options = vec![
        (TweakOption::Enabled(false), vec![
            MsrState { index: 0xC0010074, bit: 0, state: false },
            MsrState { index: 0xC0010074, bit: 3, state: false },
        ]),
        (TweakOption::Enabled(true), vec![
            MsrState { index: 0xC0010074, bit: 0, state: true },
            MsrState { index: 0xC0010074, bit: 3, state: true },
        ]),
    ];
    proof {
        lemma_indexed_from_identity(options@);
        assert(msr_table_view(options@) =~~= disable_core_watchdog_timer_table());
        assert(entry_keys(options@) =~= seq![OptionView::Enabled(false), OptionView::Enabled(true)]);
    }
    let r = Tweak::msr_tweak(
        "Disable Core Watchdog Timer",
        DISABLE_CORE_WATCHDOG_TIMER_DESCRIPTION,
        TweakCategory::Cpu,
        MSRTweak { id: TweakId::DisableCoreWatchdogTimer, readable: true, options: msr_options_from(options) },
    );
    proof {
        reveal(is_disable_core_watchdog_timer);
    }
    r
}

/// The description of the "Disable Platform First Error Handling" tweak.
pub const DISABLE_PLATFORM_FIRST_ERROR_HANDLING_DESCRIPTION: &'static str = "Disables the platform's first error handling mechanism. This reduces overhead from error checking and handling routines, potentially improving performance in stable systems where comprehensive error handling is not critical.";

/// The option table of the "Disable Platform First Error Handling" tweak: each option with the register
/// bits it sets or clears, in order.
pub open spec fn disable_platform_first_error_handling_table() -> Seq<(OptionView, Seq<MsrState>)> {
    seq![
        (OptionView::Enabled(false), seq![
            MsrState { index: 0xC0000410, bit: 5, state: false },
            MsrState { index: 0xC0000410, bit: 12, state: false },
        ]),
        (OptionView::Enabled(true), seq![
            MsrState { index: 0xC0000410, bit: 5, state: true },
            MsrState { index: 0xC0000410, bit: 12, state: true },
        ]),
    ]
}

/// The "Disable Platform First Error Handling" tweak as `disable_platform_first_error_handling` builds it.
#[verifier::opaque]
pub open spec fn is_disable_platform_first_error_handling(t: Tweak) -> bool {
    &&& fresh_tweak(t, "Disable Platform First Error Handling", DISABLE_PLATFORM_FIRST_ERROR_HANDLING_DESCRIPTION@, TweakCategory::Cpu, false)
    &&& option_views(t.options@) == seq![OptionView::Enabled(false), OptionView::Enabled(true)]
    &&& t.state == TweakOption::Enabled(false)
    &&& t.widget == TweakWidget::Toggle
    &&& msr_table(t, TweakId::DisablePlatformFirstErrorHandling, true, disable_platform_first_error_handling_table())
}

/// Builds the "Disable Platform First Error Handling" tweak.
pub fn disable_platform_first_error_handling() -> (r: Tweak)
    ensures
        is_disable_platform_first_error_handling(r),
{
    let options = vec![
        (TweakOption::Enabled(false), vec![
            MsrState { index: 0xC0000410, bit: 5, state: false },
            MsrState { index: 0xC0000410, bit: 12, state: false },
        ]),
        (TweakOption::Enabled(true), vec![
            MsrState { index: 0xC0000410, bit: 5, state: true },
            MsrState { index: 0xC0000410, bit: 12, state: true },
        ]),
    ];
    proof {
        lemma_indexed_from_identity(options@);
        assert(msr_table_view(options@) =~~= disable_platform_first_error_handling_table());
        assert(entry_keys(options@) =~= seq![OptionView::Enabled(false), OptionView::Enabled(true)]);
    }
    let r = Tweak::msr_tweak(
        "Disable Platform First Error Handling",
        DISABLE_PLATFORM_FIRST_ERROR_HANDLING_DESCRIPTION,
        TweakCategory::Cpu,
        MSRTweak { id: TweakId::DisablePlatformFirstErrorHandling, readable: true, options: msr_options_from(options) },
    );
    proof {
        reveal(is_disable_platform_first_error_handling);
    }
    r
}

/// The identifiers of the register tweaks, in the order the tool lists them.
pub open spec fn msr_tweak_ids() -> Seq<TweakId> {
    seq![TweakId::AutomaticIbrsEnable, TweakId::AggressivePrefetchProfile, TweakId::DisableUpDownPrefetcher, TweakId::DisableL2StreamPrefetcher, TweakId::DisableL1RegionPrefetcher, TweakId::DisableL1StridePrefetcher, TweakId::DisableL1StreamPrefetcher, TweakId::EnableMtrrFixedDramAttributes, TweakId::EnableMtrrFixedDramModification, TweakId::EnableTranslationCacheExtension, TweakId::EnableFastFxsaveFrstor, TweakId::DisbleControlFlowEnforcement, TweakId::EnableInterruptibleWbinvd, TweakId::DisableMcaStatusWriteEnable, TweakId::DisableTlbCache, TweakId::EnableL3CodeDataPrioritization, TweakId::DisableStreamingStores, TweakId::DisableRedirectForReturn, TweakId::DisableOpCache, TweakId::SpeculativeStoreModes, TweakId::DisableAvx512, TweakId::DisableFastShortRepMovsb, TweakId::DisableEnhancedRepMovsbStosb, TweakId::DisableRepMovStosStreaming, TweakId::DisableCoreWatchdogTimer, TweakId::DisablePlatformFirstErrorHandling]
}

/// Every register tweak, with its identifier, in the order the tool lists them.
pub fn all_msr_tweaks() -> (r: Vec<(TweakId, Tweak)>)
    ensures
        table_ids(r@) == msr_tweak_ids(),
        forall|i: int| 0 <= i < r.len() ==> fixed_tweak(#[trigger] r@[i].0, r@[i].1),
{
    let mut r: Vec<(TweakId, Tweak)> = Vec::new();
    push_fixed(&mut r, TweakId::AutomaticIbrsEnable, automatic_ibrs_enable());
    push_fixed(&mut r, TweakId::AggressivePrefetchProfile, prefetch_aggressiveness_profile());
    push_fixed(&mut r, TweakId::DisableUpDownPrefetcher, disable_up_down_prefetcher());
    push_fixed(&mut r, TweakId::DisableL2StreamPrefetcher, disable_l2_stream_prefetcher());
    push_fixed(&mut r, TweakId::DisableL1RegionPrefetcher, disable_l1_region_prefetcher());
    push_fixed(&mut r, TweakId::DisableL1StridePrefetcher, disable_l1_stride_prefetcher());
    push_fixed(&mut r, TweakId::DisableL1StreamPrefetcher, disable_l1_stream_prefetcher());
    push_fixed(&mut r, TweakId::EnableMtrrFixedDramAttributes, enable_mtrr_fixed_dram_attributes());
    push_fixed(&mut r, TweakId::EnableMtrrFixedDramModification, enable_mtrr_fixed_dram_modification());
    push_fixed(&mut r, TweakId::EnableTranslationCacheExtension, translation_cache_extension_enable());
    push_fixed(&mut r, TweakId::EnableFastFxsaveFrstor, enable_fast_fxsave_frstor());
    push_fixed(&mut r, TweakId::DisbleControlFlowEnforcement, disable_control_flow_enforcement());
    push_fixed(&mut r, TweakId::EnableInterruptibleWbinvd, enable_interruptible_wbinvd());
    push_fixed(&mut r, TweakId::DisableMcaStatusWriteEnable, disable_mca_status_write_enable());
    push_fixed(&mut r, TweakId::DisableTlbCache, disable_tlb_cache());
    push_fixed(&mut r, TweakId::EnableL3CodeDataPrioritization, enable_l3_code_data_prioritization());
    push_fixed(&mut r, TweakId::DisableStreamingStores, disable_streaming_stores());
    push_fixed(&mut r, TweakId::DisableRedirectForReturn, disable_redirect_for_return());
    push_fixed(&mut r, TweakId::DisableOpCache, disable_opcache());
    push_fixed(&mut r, TweakId::SpeculativeStoreModes, cpu_speculative_store_modes());
    push_fixed(&mut r, TweakId::DisableAvx512, disable_avx512());
    push_fixed(&mut r, TweakId::DisableFastShortRepMovsb, disable_fast_short_rep_movsb());
    push_fixed(&mut r, TweakId::DisableEnhancedRepMovsbStosb, disable_enhanced_rep_movsb_stosb());
    push_fixed(&mut r, TweakId::DisableRepMovStosStreaming, disable_rep_mov_stos_streaming());
    push_fixed(&mut r, TweakId::DisableCoreWatchdogTimer, disable_core_watchdog_timer());
    push_fixed(&mut r, TweakId::DisablePlatformFirstErrorHandling, disable_platform_first_error_handling());
    assert(table_ids(r@) =~= seq![TweakId::AutomaticIbrsEnable, TweakId::AggressivePrefetchProfile, TweakId::DisableUpDownPrefetcher, TweakId::DisableL2StreamPrefetcher, TweakId::DisableL1RegionPrefetcher, TweakId::DisableL1StridePrefetcher, TweakId::DisableL1StreamPrefetcher, TweakId::EnableMtrrFixedDramAttributes, TweakId::EnableMtrrFixedDramModification, TweakId::EnableTranslationCacheExtension, TweakId::EnableFastFxsaveFrstor, TweakId::DisbleControlFlowEnforcement, TweakId::EnableInterruptibleWbinvd, TweakId::DisableMcaStatusWriteEnable, TweakId::DisableTlbCache, TweakId::EnableL3CodeDataPrioritization, TweakId::DisableStreamingStores, TweakId::DisableRedirectForReturn, TweakId::DisableOpCache, TweakId::SpeculativeStoreModes, TweakId::DisableAvx512, TweakId::DisableFastShortRepMovsb, TweakId::DisableEnhancedRepMovsbStosb, TweakId::DisableRepMovStosStreaming, TweakId::DisableCoreWatchdogTimer, TweakId::DisablePlatformFirstErrorHandling]);
    r
}

} // verus!
