//! The catalog of tweaks: which tweak each identifier stands for, and the
//! table of all tweaks in identifier order.
use vstd::prelude::*;
use crate::tweaks::{id_at, id_ordinal, lemma_id_at_ordinal, lemma_id_ordinal_inverse, Tweak, TweakId, TWEAK_ID_COUNT};
use crate::tweaks::table::{has_id, in_id_order, table_from_lists, table_ids};
use crate::tweaks::group_policy::{all_group_policy_tweaks, group_policy_tweak_ids};
use crate::tweaks::msr::{all_msr_tweaks, msr_tweak_ids};
use crate::tweaks::powershell::{all_powershell_tweaks, powershell_tweak_ids};
use crate::tweaks::registry::{all_registry_tweaks, registry_tweak_ids};
use crate::tweaks::winapi::{all_winapi_tweaks, winapi_tweak_ids, StartupReadings};

verus! {

/// The tweak that each identifier stands for, for the identifiers whose
/// tweak does not depend on what the system reported at start.
pub open spec fn fixed_tweak(id: TweakId, t: Tweak) -> bool {
    match id {
        TweakId::LargeSystemCache => crate::tweaks::registry::is_enable_large_system_cache(t),
        TweakId::SystemResponsiveness => crate::tweaks::registry::is_system_responsiveness(t),
        TweakId::DisableHWAcceleration => crate::tweaks::registry::is_disable_hw_acceleration(t),
        TweakId::Win32PrioritySeparation => crate::tweaks::registry::is_win32_priority_separation(t),
        TweakId::DisableCoreParking => crate::tweaks::registry::is_disable_core_parking(t),
        TweakId::ProcessIdleTasks => crate::tweaks::powershell::is_process_idle_tasks(t),
        TweakId::SeLockMemoryPrivilege => crate::tweaks::group_policy::is_se_lock_memory_privilege(t),
        TweakId::UltimatePerformancePlan => false,
        TweakId::NoLowDiskSpaceChecks => crate::tweaks::registry::is_disable_low_disk_space_checks(t),
        TweakId::AdditionalKernelWorkerThreads => false,
        TweakId::DisableHPET => crate::tweaks::powershell::is_disable_hpet(t),
        TweakId::DisableRamCompression => crate::tweaks::powershell::is_disable_ram_compression(t),
        TweakId::DisableApplicationTelemetry => crate::tweaks::registry::is_disable_application_telemetry(t),
        TweakId::DisableWindowsErrorReporting => crate::tweaks::registry::is_disable_windows_error_reporting(t),
        TweakId::DisableTlbCache => crate::tweaks::msr::cache::is_disable_tlb_cache(t),
        TweakId::DisableMcaStatusWriteEnable => crate::tweaks::msr::is_disable_mca_status_write_enable(t),
        TweakId::DisableLocalFirewall => crate::tweaks::powershell::is_disable_local_firewall(t),
        TweakId::DontVerifyRandomDrivers => crate::tweaks::registry::is_dont_verify_random_drivers(t),
        TweakId::DisableDriverPaging => crate::tweaks::registry::is_disable_driver_paging(t),
        TweakId::DisablePrefetcher => crate::tweaks::registry::is_configure_prefetcher_service(t),
        TweakId::DisableSuccessAuditing => crate::tweaks::powershell::is_disable_success_auditing(t),
        TweakId::ThreadDpcDisable => crate::tweaks::registry::kernel::is_thread_dpc_disable(t),
        TweakId::SvcHostSplitThreshold => crate::tweaks::registry::is_svc_host_split_threshold(t),
        TweakId::DisablePagefile => crate::tweaks::powershell::is_disable_pagefile(t),
        TweakId::SpeculativeExecutionMitigations => crate::tweaks::registry::is_disable_speculative_execution_mitigations(t),
        TweakId::DisableDataExecutionPrevention => crate::tweaks::powershell::is_disable_data_execution_prevention(t),
        TweakId::DisableWindowsDefender => crate::tweaks::registry::is_disable_windows_defender(t),
        TweakId::DisablePageFileEncryption => crate::tweaks::registry::is_disable_page_file_encryption(t),
        TweakId::DisableCpuIdleStates => crate::tweaks::powershell::is_disable_cpu_idle_states(t),
        TweakId::KillAllNonCriticalServices => crate::tweaks::winapi::is_kill_all_non_critical_services(t),
        TweakId::DisableIntelTSX => crate::tweaks::registry::is_disable_intel_tsx(t),
        TweakId::DisableWindowsMaintenance => crate::tweaks::registry::is_disable_windows_maintenance(t),
        TweakId::KillExplorer => crate::tweaks::winapi::is_kill_explorer(t),
        TweakId::HighPerformanceVisualSettings => crate::tweaks::registry::is_high_performance_visual_settings(t),
        TweakId::LowResMode => false,
        TweakId::SplitLargeCaches => crate::tweaks::registry::is_split_large_caches(t),
        TweakId::DisableProtectedServices => crate::tweaks::registry::is_disable_protected_services(t),
        TweakId::DisableSecurityAccountsManager => crate::tweaks::registry::is_disable_security_accounts_manager(t),
        TweakId::DisablePagingCombining => crate::tweaks::registry::is_disable_paging_combining(t),
        TweakId::DisableSuperfetch => crate::tweaks::powershell::is_disable_superfetch(t),
        TweakId::EnableMcsss => crate::tweaks::registry::is_enable_mcsss(t),
        TweakId::AutomaticIbrsEnable => crate::tweaks::msr::is_automatic_ibrs_enable(t),
        TweakId::AggressivePrefetchProfile => crate::tweaks::msr::prefetch::is_prefetch_aggressiveness_profile(t),
        TweakId::DisableUpDownPrefetcher => crate::tweaks::msr::prefetch::is_disable_up_down_prefetcher(t),
        TweakId::DisableL2StreamPrefetcher => crate::tweaks::msr::prefetch::is_disable_l2_stream_prefetcher(t),
        TweakId::DisableL1RegionPrefetcher => crate::tweaks::msr::prefetch::is_disable_l1_region_prefetcher(t),
        TweakId::DisableL1StreamPrefetcher => crate::tweaks::msr::prefetch::is_disable_l1_stream_prefetcher(t),
        TweakId::DisableL1StridePrefetcher => crate::tweaks::msr::prefetch::is_disable_l1_stride_prefetcher(t),
        TweakId::EnableMtrrFixedDramAttributes => crate::tweaks::msr::is_enable_mtrr_fixed_dram_attributes(t),
        TweakId::EnableMtrrFixedDramModification => crate::tweaks::msr::is_enable_mtrr_fixed_dram_modification(t),
        TweakId::EnableTranslationCacheExtension => crate::tweaks::msr::is_translation_cache_extension_enable(t),
        TweakId::EnableFastFxsaveFrstor => crate::tweaks::msr::is_enable_fast_fxsave_frstor(t),
        TweakId::DisbleControlFlowEnforcement => crate::tweaks::msr::is_disable_control_flow_enforcement(t),
        TweakId::EnableInterruptibleWbinvd => crate::tweaks::msr::is_enable_interruptible_wbinvd(t),
        TweakId::EnableL3CodeDataPrioritization => crate::tweaks::msr::cache::is_enable_l3_code_data_prioritization(t),
        TweakId::DisableStreamingStores => crate::tweaks::msr::is_disable_streaming_stores(t),
        TweakId::DisableRedirectForReturn => crate::tweaks::msr::is_disable_redirect_for_return(t),
        TweakId::DisableOpCache => crate::tweaks::msr::cache::is_disable_opcache(t),
        TweakId::SpeculativeStoreModes => crate::tweaks::msr::is_cpu_speculative_store_modes(t),
        TweakId::DisableAvx512 => crate::tweaks::msr::is_disable_avx512(t),
        TweakId::DisableFastShortRepMovsb => crate::tweaks::msr::is_disable_fast_short_rep_movsb(t),
        TweakId::DisableEnhancedRepMovsbStosb => crate::tweaks::msr::is_disable_enhanced_rep_movsb_stosb(t),
        TweakId::DisableRepMovStosStreaming => crate::tweaks::msr::is_disable_rep_mov_stos_streaming(t),
        TweakId::DisableCoreWatchdogTimer => crate::tweaks::msr::is_disable_core_watchdog_timer(t),
        TweakId::DisablePlatformFirstErrorHandling => crate::tweaks::msr::is_disable_platform_first_error_handling(t),
        TweakId::AlchemyKernelTweak => crate::tweaks::registry::kernel::is_alchemy_kernel_tweak(t),
        TweakId::DisableDps => crate::tweaks::powershell::is_disable_dps(t),
        TweakId::SlowMode => false,
        TweakId::DisableProcessIdleStates => crate::tweaks::winapi::is_disable_process_idle_states(t),
    }
}

/// The tweak that each identifier stands for, given what the system
/// reported at start.
pub open spec fn catalog_tweak(id: TweakId, t: Tweak, readings: StartupReadings) -> bool {
    match id {
        TweakId::UltimatePerformancePlan => crate::tweaks::winapi::is_ultimate_performance_plan(t, readings.active_scheme),
        TweakId::SlowMode => crate::tweaks::winapi::is_slow_mode(t, readings.active_scheme, readings.power_subgroups@),
        TweakId::LowResMode => crate::tweaks::winapi::is_low_res_mode(t, readings.display_modes@, readings.current_display),
        TweakId::AdditionalKernelWorkerThreads => crate::tweaks::registry::kernel::is_additional_kernel_worker_threads(t, readings.logical_processors),
        _ => fixed_tweak(id, t),
    }
}

/// Appends a tweak whose identifier stands for it.
pub(crate) fn push_fixed(v: &mut Vec<(TweakId, Tweak)>, id: TweakId, t: Tweak)
    requires
        fixed_tweak(id, t),
        forall|i: int| 0 <= i < old(v).len() ==> fixed_tweak(#[trigger] old(v)@[i].0, old(v)@[i].1),
    ensures
        final(v)@ == old(v)@.push((id, t)),
        forall|i: int| 0 <= i < final(v).len() ==> fixed_tweak(#[trigger] final(v)@[i].0, final(v)@[i].1),
{
    v.push((id, t));
}

/// The tweak that a registry identifier stands for on a machine with
/// `logical_processors` logical processors.
pub open spec fn registry_listed_tweak(id: TweakId, t: Tweak, logical_processors: u32) -> bool {
    if id == TweakId::AdditionalKernelWorkerThreads {
        crate::tweaks::registry::kernel::is_additional_kernel_worker_threads(t, logical_processors)
    } else {
        fixed_tweak(id, t)
    }
}

/// Appends a registry tweak whose identifier stands for it.
pub(crate) fn push_registry(v: &mut Vec<(TweakId, Tweak)>, id: TweakId, t: Tweak, Ghost(logical_processors): Ghost<u32>)
    requires
        registry_listed_tweak(id, t, logical_processors),
        forall|i: int| 0 <= i < old(v).len() ==> registry_listed_tweak(#[trigger] old(v)@[i].0, old(v)@[i].1, logical_processors),
    ensures
        final(v)@ == old(v)@.push((id, t)),
        forall|i: int| 0 <= i < final(v).len() ==> registry_listed_tweak(#[trigger] final(v)@[i].0, final(v)@[i].1, logical_processors),
{
    v.push((id, t));
}

/// Appends a tweak whose identifier stands for it, given the startup readings.
pub(crate) fn push_catalog(v: &mut Vec<(TweakId, Tweak)>, id: TweakId, t: Tweak, Ghost(readings): Ghost<StartupReadings>)
    requires
        catalog_tweak(id, t, readings),
        forall|i: int| 0 <= i < old(v).len() ==> catalog_tweak(#[trigger] old(v)@[i].0, old(v)@[i].1, readings),
    ensures
        final(v)@ == old(v)@.push((id, t)),
        forall|i: int| 0 <= i < final(v).len() ==> catalog_tweak(#[trigger] final(v)@[i].0, final(v)@[i].1, readings),
{
    v.push((id, t));
}

/// Every tweak of the tool, keyed by identifier and in identifier order, as
/// the readings taken at start make them: `table_from_lists` of the
/// registry, Windows API, PowerShell, group policy and register lists, so the
/// table holds each entry of those lists (see `lemma_lists_partition_ids` for
/// why nothing is dropped). It holds each identifier exactly once, at the
/// position of its ordinal, with the tweak that the identifier stands for.
pub fn all_tweaks(readings: StartupReadings) -> (r: Vec<(TweakId, Tweak)>)
    requires
        readings.display_modes.len() > 0,
        readings.logical_processors <= 0x7FFF_FFFF,
    ensures
        r.len() == TWEAK_ID_COUNT,
        forall|i: int| 0 <= i < r.len() ==> #[trigger] r@[i].0 == id_at(i as nat),
        forall|i: int| 0 <= i < r.len() ==> catalog_tweak(#[trigger] r@[i].0, r@[i].1, readings),
{
    let ghost rd = readings;
    let registry = all_registry_tweaks(readings.logical_processors);
    let winapi = all_winapi_tweaks(readings);
    let powershell = all_powershell_tweaks();
    let group_policy = all_group_policy_tweaks();
    let msr = all_msr_tweaks();
    let ghost reg = registry@;
    let ghost win = winapi@;
    let ghost ps = powershell@;
    let ghost gp = group_policy@;
    let ghost ms = msr@;
    let ghost all = reg + win + ps + gp + ms;
    proof {
        lemma_lists_partition_ids();
        assert(table_ids(all) =~= listed_tweak_ids());
        assert forall|j: int| 0 <= j < all.len() implies catalog_tweak(#[trigger] all[j].0, all[j].1, rd) by {
            let a = reg.len() as int;
            let b = a + win.len();
            let c = b + ps.len();
            let d = c + gp.len();
            if j < a {
                assert(all[j] == reg[j]);
                assert(registry_listed_tweak(reg[j].0, reg[j].1, rd.logical_processors));
            } else if j < b {
                assert(all[j] == win[j - a]);
            } else if j < c {
                assert(all[j] == ps[j - b]);
                assert(fixed_tweak(ps[j - b].0, ps[j - b].1));
            } else if j < d {
                assert(all[j] == gp[j - c]);
                assert(fixed_tweak(gp[j - c].0, gp[j - c].1));
            } else {
                assert(all[j] == ms[j - d]);
                assert(fixed_tweak(ms[j - d].0, ms[j - d].1));
            }
        }
    }
    let table = table_from_lists(registry, winapi, powershell, group_policy, msr);
    proof {
        assert forall|id: TweakId| #[trigger] has_id(table@, id) by {
            assert(listed_tweak_ids().contains(id));
            let j = choose|j: int| 0 <= j < listed_tweak_ids().len() && listed_tweak_ids()[j] == id;
            assert(table_ids(all)[j] == all[j].0);
            assert(table@.contains(all[j]));
        }
        lemma_full_table(table@);
        assert forall|i: int| 0 <= i < table.len() implies catalog_tweak(#[trigger] table@[i].0, table@[i].1, rd) by {
            assert(all.contains(table@[i]));
            let j = choose|j: int| 0 <= j < all.len() && all[j] == table@[i];
            assert(catalog_tweak(all[j].0, all[j].1, rd));
        }
    }
    table
}

proof fn lemma_ordinals_from_below<V>(s: Seq<(TweakId, V)>, i: int)
    requires
        in_id_order(s),
        0 <= i < s.len(),
    ensures
        id_ordinal(s[i].0) >= i,
    decreases i,
{
    if i > 0 {
        lemma_ordinals_from_below(s, i - 1);
    }
}

proof fn lemma_ordinal_in_place<V>(s: Seq<(TweakId, V)>, n: nat)
    requires
        in_id_order(s),
        n < TWEAK_ID_COUNT,
        forall|id: TweakId| #[trigger] has_id(s, id),
    ensures
        n < s.len(),
        id_ordinal(s[n as int].0) == n,
    decreases n,
{
    if n > 0 {
        lemma_ordinal_in_place(s, (n - 1) as nat);
    }
    crate::tweaks::lemma_id_at_ordinal(n);
    assert(has_id(s, id_at(n)));
    let j = choose|j: int| 0 <= j < s.len() && s[j].0 == id_at(n);
    lemma_ordinals_from_below(s, j);
    if j < n {
        lemma_ordinal_in_place(s, j as nat);
    }
    assert(j == n);
}

/// A table in identifier order that holds every identifier holds each at
/// the position of its ordinal, and nothing else.
proof fn lemma_full_table<V>(s: Seq<(TweakId, V)>)
    requires
        in_id_order(s),
        forall|id: TweakId| #[trigger] has_id(s, id),
    ensures
        s.len() == TWEAK_ID_COUNT,
        forall|i: int| 0 <= i < s.len() ==> #[trigger] s[i].0 == id_at(i as nat),
{
    lemma_ordinal_in_place(s, (TWEAK_ID_COUNT - 1) as nat);
    if s.len() > TWEAK_ID_COUNT {
        lemma_ordinals_from_below(s, TWEAK_ID_COUNT as int);
        crate::tweaks::lemma_id_ordinal_inverse(s[TWEAK_ID_COUNT as int].0);
    }
    assert forall|i: int| 0 <= i < s.len() implies #[trigger] s[i].0 == id_at(i as nat) by {
        lemma_ordinal_in_place(s, i as nat);
        lemma_id_ordinal_inverse(s[i].0);
    }
}

/// Each identifier is in a table of all tweaks exactly once: at the
/// position of its ordinal, and nowhere else.
pub proof fn lemma_each_id_once<V>(s: Seq<(TweakId, V)>)
    requires
        s.len() == TWEAK_ID_COUNT,
        forall|i: int| 0 <= i < s.len() ==> #[trigger] s[i].0 == id_at(i as nat),
    ensures
        forall|id: TweakId| #[trigger] s[id_ordinal(id) as int].0 == id,
        forall|i: int| 0 <= i < s.len() ==> i == id_ordinal(#[trigger] s[i].0),
{
    assert forall|id: TweakId| #[trigger] s[id_ordinal(id) as int].0 == id by {
        lemma_id_ordinal_inverse(id);
    }
    assert forall|i: int| 0 <= i < s.len() implies i == id_ordinal(#[trigger] s[i].0) by {
        crate::tweaks::lemma_id_at_ordinal(i as nat);
    }
}


/// The identifiers of the five tweak lists, one list after another: the
/// registry, Windows API, PowerShell, group policy and register tweaks.
pub open spec fn listed_tweak_ids() -> Seq<TweakId> {
    registry_tweak_ids() + winapi_tweak_ids() + powershell_tweak_ids() + group_policy_tweak_ids() + msr_tweak_ids()
}

/// The five lists of identifiers, in the same order.
pub open spec fn tweak_id_lists() -> Seq<Seq<TweakId>> {
    seq![registry_tweak_ids(), winapi_tweak_ids(), powershell_tweak_ids(), group_policy_tweak_ids(), msr_tweak_ids()]
}

/// Every identifier is in one of the five lists.
proof fn lemma_listed_ids_cover(id: TweakId)
    ensures
        listed_tweak_ids().contains(id),
{
    match id {
            TweakId::LargeSystemCache => {
                assert(listed_tweak_ids()[0] == id);
            },
            TweakId::SystemResponsiveness => {
                assert(listed_tweak_ids()[1] == id);
            },
            TweakId::DisableHWAcceleration => {
                assert(listed_tweak_ids()[2] == id);
            },
            TweakId::Win32PrioritySeparation => {
                assert(listed_tweak_ids()[3] == id);
            },
            TweakId::DisableCoreParking => {
                assert(listed_tweak_ids()[4] == id);
            },
            TweakId::NoLowDiskSpaceChecks => {
                assert(listed_tweak_ids()[5] == id);
            },
            TweakId::DisableWindowsErrorReporting => {
                assert(listed_tweak_ids()[6] == id);
            },
            TweakId::DontVerifyRandomDrivers => {
                assert(listed_tweak_ids()[7] == id);
            },
            TweakId::DisableDriverPaging => {
                assert(listed_tweak_ids()[8] == id);
            },
            TweakId::DisablePrefetcher => {
                assert(listed_tweak_ids()[9] == id);
            },
            TweakId::DisableApplicationTelemetry => {
                assert(listed_tweak_ids()[10] == id);
            },
            TweakId::ThreadDpcDisable => {
                assert(listed_tweak_ids()[11] == id);
            },
            TweakId::SvcHostSplitThreshold => {
                assert(listed_tweak_ids()[12] == id);
            },
            TweakId::DisableWindowsDefender => {
                assert(listed_tweak_ids()[13] == id);
            },
            TweakId::DisablePageFileEncryption => {
                assert(listed_tweak_ids()[14] == id);
            },
            TweakId::DisableIntelTSX => {
                assert(listed_tweak_ids()[15] == id);
            },
            TweakId::DisableWindowsMaintenance => {
                assert(listed_tweak_ids()[16] == id);
            },
            TweakId::AdditionalKernelWorkerThreads => {
                assert(listed_tweak_ids()[17] == id);
            },
            TweakId::SpeculativeExecutionMitigations => {
                assert(listed_tweak_ids()[18] == id);
            },
            TweakId::HighPerformanceVisualSettings => {
                assert(listed_tweak_ids()[19] == id);
            },
            TweakId::SplitLargeCaches => {
                assert(listed_tweak_ids()[20] == id);
            },
            TweakId::DisableProtectedServices => {
                assert(listed_tweak_ids()[21] == id);
            },
            TweakId::DisablePagingCombining => {
                assert(listed_tweak_ids()[22] == id);
            },
            TweakId::DisableSecurityAccountsManager => {
                assert(listed_tweak_ids()[23] == id);
            },
            TweakId::EnableMcsss => {
                assert(listed_tweak_ids()[24] == id);
            },
            TweakId::AlchemyKernelTweak => {
                assert(listed_tweak_ids()[25] == id);
            },
            TweakId::UltimatePerformancePlan => {
                assert(listed_tweak_ids()[26] == id);
            },
            TweakId::SlowMode => {
                assert(listed_tweak_ids()[27] == id);
            },
            TweakId::LowResMode => {
                assert(listed_tweak_ids()[28] == id);
            },
            TweakId::DisableProcessIdleStates => {
                assert(listed_tweak_ids()[29] == id);
            },
            TweakId::KillAllNonCriticalServices => {
                assert(listed_tweak_ids()[30] == id);
            },
            TweakId::KillExplorer => {
                assert(listed_tweak_ids()[31] == id);
            },
            TweakId::ProcessIdleTasks => {
                assert(listed_tweak_ids()[32] == id);
            },
            TweakId::DisableHPET => {
                assert(listed_tweak_ids()[33] == id);
            },
            TweakId::DisableRamCompression => {
                assert(listed_tweak_ids()[34] == id);
            },
            TweakId::DisableLocalFirewall => {
                assert(listed_tweak_ids()[35] == id);
            },
            TweakId::DisableSuccessAuditing => {
                assert(listed_tweak_ids()[36] == id);
            },
            TweakId::DisablePagefile => {
                assert(listed_tweak_ids()[37] == id);
            },
            TweakId::DisableDataExecutionPrevention => {
                assert(listed_tweak_ids()[38] == id);
            },
            TweakId::DisableSuperfetch => {
                assert(listed_tweak_ids()[39] == id);
            },
            TweakId::DisableCpuIdleStates => {
                assert(listed_tweak_ids()[40] == id);
            },
            TweakId::DisableDps => {
                assert(listed_tweak_ids()[41] == id);
            },
            TweakId::SeLockMemoryPrivilege => {
                assert(listed_tweak_ids()[42] == id);
            },
            TweakId::AutomaticIbrsEnable => {
                assert(listed_tweak_ids()[43] == id);
            },
            TweakId::AggressivePrefetchProfile => {
                assert(listed_tweak_ids()[44] == id);
            },
            TweakId::DisableUpDownPrefetcher => {
                assert(listed_tweak_ids()[45] == id);
            },
            TweakId::DisableL2StreamPrefetcher => {
                assert(listed_tweak_ids()[46] == id);
            },
            TweakId::DisableL1RegionPrefetcher => {
                assert(listed_tweak_ids()[47] == id);
            },
            TweakId::DisableL1StridePrefetcher => {
                assert(listed_tweak_ids()[48] == id);
            },
            TweakId::DisableL1StreamPrefetcher => {
                assert(listed_tweak_ids()[49] == id);
            },
            TweakId::EnableMtrrFixedDramAttributes => {
                assert(listed_tweak_ids()[50] == id);
            },
            TweakId::EnableMtrrFixedDramModification => {
                assert(listed_tweak_ids()[51] == id);
            },
            TweakId::EnableTranslationCacheExtension => {
                assert(listed_tweak_ids()[52] == id);
            },
            TweakId::EnableFastFxsaveFrstor => {
                assert(listed_tweak_ids()[53] == id);
            },
            TweakId::DisbleControlFlowEnforcement => {
                assert(listed_tweak_ids()[54] == id);
            },
            TweakId::EnableInterruptibleWbinvd => {
                assert(listed_tweak_ids()[55] == id);
            },
            TweakId::DisableMcaStatusWriteEnable => {
                assert(listed_tweak_ids()[56] == id);
            },
            TweakId::DisableTlbCache => {
                assert(listed_tweak_ids()[57] == id);
            },
            TweakId::EnableL3CodeDataPrioritization => {
                assert(listed_tweak_ids()[58] == id);
            },
            TweakId::DisableStreamingStores => {
                assert(listed_tweak_ids()[59] == id);
            },
            TweakId::DisableRedirectForReturn => {
                assert(listed_tweak_ids()[60] == id);
            },
            TweakId::DisableOpCache => {
                assert(listed_tweak_ids()[61] == id);
            },
            TweakId::SpeculativeStoreModes => {
                assert(listed_tweak_ids()[62] == id);
            },
            TweakId::DisableAvx512 => {
                assert(listed_tweak_ids()[63] == id);
            },
            TweakId::DisableFastShortRepMovsb => {
                assert(listed_tweak_ids()[64] == id);
            },
            TweakId::DisableEnhancedRepMovsbStosb => {
                assert(listed_tweak_ids()[65] == id);
            },
            TweakId::DisableRepMovStosStreaming => {
                assert(listed_tweak_ids()[66] == id);
            },
            TweakId::DisableCoreWatchdogTimer => {
                assert(listed_tweak_ids()[67] == id);
            },
            TweakId::DisablePlatformFirstErrorHandling => {
                assert(listed_tweak_ids()[68] == id);
            },
    }
}

/// Two stretches of a sequence without repetitions, one after the other,
/// have no element in common.
proof fn lemma_stretches_apart(s: Seq<TweakId>, a: Seq<TweakId>, b: Seq<TweakId>, oa: int, ob: int)
    requires
        s.no_duplicates(),
        0 <= oa,
        oa + a.len() <= ob,
        ob + b.len() <= s.len(),
        a == s.subrange(oa, oa + a.len()),
        b == s.subrange(ob, ob + b.len()),
    ensures
        forall|id: TweakId| !(a.contains(id) && b.contains(id)),
{
    assert forall|id: TweakId| !(a.contains(id) && b.contains(id)) by {
        if a.contains(id) && b.contains(id) {
            let i = choose|i: int| 0 <= i < a.len() && a[i] == id;
            let j = choose|j: int| 0 <= j < b.len() && b[j] == id;
            assert(s[oa + i] == a[i]);
            assert(s[ob + j] == b[j]);
        }
    }
}

/// The five tweak lists split the identifiers between them: no identifier
/// is in two lists or twice in one, every identifier is in one of them, and
/// so their lengths add up to the number of identifiers. The table of all
/// tweaks therefore drops none of the listed tweaks.
pub proof fn lemma_lists_partition_ids()
    ensures
        registry_tweak_ids().len() + winapi_tweak_ids().len() + powershell_tweak_ids().len()
            + group_policy_tweak_ids().len() + msr_tweak_ids().len() == TWEAK_ID_COUNT,
        listed_tweak_ids().no_duplicates(),
        forall|id: TweakId| #[trigger] listed_tweak_ids().contains(id),
        forall|a: int, b: int, id: TweakId| 0 <= a < b < 5 ==> !(
            #[trigger] tweak_id_lists()[a].contains(id) && #[trigger] tweak_id_lists()[b].contains(id)),
{
    let all = listed_tweak_ids();
    let ids = Seq::new(TWEAK_ID_COUNT as nat, |i: int| id_at(i as nat));
    assert(ids.no_duplicates()) by {
        assert forall|i: int, j: int| 0 <= i < ids.len() && 0 <= j < ids.len() && i != j implies ids[i] != ids[j] by {
            lemma_id_at_ordinal(i as nat);
            lemma_id_at_ordinal(j as nat);
        }
    }
    ids.unique_seq_to_set();
    assert forall|id: TweakId| #[trigger] all.contains(id) by {
        lemma_listed_ids_cover(id);
    }
    assert(all.to_set() =~= ids.to_set()) by {
        assert forall|id: TweakId| all.to_set().contains(id) == ids.to_set().contains(id) by {
            lemma_listed_ids_cover(id);
            lemma_id_ordinal_inverse(id);
            assert(ids[id_ordinal(id) as int] == id);
        }
    }
    all.lemma_no_dup_set_cardinality();
    let lists = tweak_id_lists();
    let offsets = seq![0int, 26, 32, 42, 43];
    assert forall|a: int| 0 <= a < 5 implies #[trigger] lists[a] == all.subrange(offsets[a], offsets[a] + lists[a].len()) by {
        if a == 0 {
            assert(lists[0] =~= all.subrange(0, 26));
        } else if a == 1 {
            assert(lists[1] =~= all.subrange(26, 32));
        } else if a == 2 {
            assert(lists[2] =~= all.subrange(32, 42));
        } else if a == 3 {
            assert(lists[3] =~= all.subrange(42, 43));
        } else {
            assert(lists[4] =~= all.subrange(43, 69));
        }
    }
    assert forall|a: int, b: int, id: TweakId| 0 <= a < b < 5 implies !(#[trigger] lists[a].contains(id) && #[trigger] lists[b].contains(id)) by {
        assert(lists[a] == all.subrange(offsets[a], offsets[a] + lists[a].len()));
        assert(lists[b] == all.subrange(offsets[b], offsets[b] + lists[b].len()));
        lemma_stretches_apart(all, lists[a], lists[b], offsets[a], offsets[b]);
    }
}

} // verus!
