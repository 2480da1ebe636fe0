pub mod catalog;
pub mod group_policy;
pub mod powershell;
pub mod msr;
pub mod plan;
pub mod registry;
pub mod table;
pub mod winapi;

use vstd::prelude::*;
use vstd::string::StringExecFns;
use crate::indexed::{
    entry_keys, msr_option_entries, msr_options_get_index, msr_options_len,
    policy_option_entries, policy_options_get_index, policy_options_len, registry_option_entries,
    registry_options_get_index, registry_options_len,
};
use group_policy::method::{policy_table_view, GroupPolicyTweak, GroupPolicyValue};
use msr::method::{msr_table_view, MSRTweak, MsrState};
use powershell::method::{actions_view, PowershellAction, PowershellTweak};
use registry::method::{table_view, ModificationView, RegistryTweak};
use winapi::disable_processor_idle_states::DisableProcessIdleStates;
use winapi::kill_explorer::KillExplorerTweak;
use winapi::kill_non_critical_services::KillNonCriticalServicesTweak;
use winapi::low_res_mode::LowResMode;
use winapi::slow_mode::SlowMode;
use winapi::ultimate_performance_plan::UltimatePerformancePlan;

verus! {

/// Identifies each tweak that the tool offers.
#[derive(Debug, Clone, Copy, PartialEq, Eq, Structural, Hash, Ord, PartialOrd)]
pub enum TweakId {
    LargeSystemCache,
    SystemResponsiveness,
    DisableHWAcceleration,
    Win32PrioritySeparation,
    DisableCoreParking,
    ProcessIdleTasks,
    SeLockMemoryPrivilege,
    UltimatePerformancePlan,
    NoLowDiskSpaceChecks,
    AdditionalKernelWorkerThreads,
    DisableHPET,
    DisableRamCompression,
    DisableApplicationTelemetry,
    DisableWindowsErrorReporting,
    DisableTlbCache,
    DisableMcaStatusWriteEnable,
    DisableLocalFirewall,
    DontVerifyRandomDrivers,
    DisableDriverPaging,
    DisablePrefetcher,
    DisableSuccessAuditing,
    ThreadDpcDisable,
    SvcHostSplitThreshold,
    DisablePagefile,
    SpeculativeExecutionMitigations,
    DisableDataExecutionPrevention,
    DisableWindowsDefender,
    DisablePageFileEncryption,
    DisableCpuIdleStates,
    KillAllNonCriticalServices,
    DisableIntelTSX,
    DisableWindowsMaintenance,
    KillExplorer,
    HighPerformanceVisualSettings,
    LowResMode,
    SplitLargeCaches,
    DisableProtectedServices,
    DisableSecurityAccountsManager,
    DisablePagingCombining,
    DisableSuperfetch,
    EnableMcsss,
    AutomaticIbrsEnable,
    AggressivePrefetchProfile,
    DisableUpDownPrefetcher,
    DisableL2StreamPrefetcher,
    DisableL1RegionPrefetcher,
    DisableL1StreamPrefetcher,
    DisableL1StridePrefetcher,
    EnableMtrrFixedDramAttributes,
    EnableMtrrFixedDramModification,
    EnableTranslationCacheExtension,
    EnableFastFxsaveFrstor,
    DisbleControlFlowEnforcement,
    EnableInterruptibleWbinvd,
    EnableL3CodeDataPrioritization,
    DisableStreamingStores,
    DisableRedirectForReturn,
    DisableOpCache,
    SpeculativeStoreModes,
    DisableAvx512,
    DisableFastShortRepMovsb,
    DisableEnhancedRepMovsbStosb,
    DisableRepMovStosStreaming,
    DisableCoreWatchdogTimer,
    DisablePlatformFirstErrorHandling,
    AlchemyKernelTweak,
    DisableDps,
    SlowMode,
    DisableProcessIdleStates,
}

/// The number of tweak identifiers.
pub const TWEAK_ID_COUNT: usize = 69;

/// The position of an identifier in the declaration order of `TweakId`,
/// which is also the order in which identifiers compare.
pub open spec fn id_ordinal(id: TweakId) -> nat {
    match id {
        TweakId::LargeSystemCache => 0,
        TweakId::SystemResponsiveness => 1,
        TweakId::DisableHWAcceleration => 2,
        TweakId::Win32PrioritySeparation => 3,
        TweakId::DisableCoreParking => 4,
        TweakId::ProcessIdleTasks => 5,
        TweakId::SeLockMemoryPrivilege => 6,
        TweakId::UltimatePerformancePlan => 7,
        TweakId::NoLowDiskSpaceChecks => 8,
        TweakId::AdditionalKernelWorkerThreads => 9,
        TweakId::DisableHPET => 10,
        TweakId::DisableRamCompression => 11,
        TweakId::DisableApplicationTelemetry => 12,
        TweakId::DisableWindowsErrorReporting => 13,
        TweakId::DisableTlbCache => 14,
        TweakId::DisableMcaStatusWriteEnable => 15,
        TweakId::DisableLocalFirewall => 16,
        TweakId::DontVerifyRandomDrivers => 17,
        TweakId::DisableDriverPaging => 18,
        TweakId::DisablePrefetcher => 19,
        TweakId::DisableSuccessAuditing => 20,
        TweakId::ThreadDpcDisable => 21,
        TweakId::SvcHostSplitThreshold => 22,
        TweakId::DisablePagefile => 23,
        TweakId::SpeculativeExecutionMitigations => 24,
        TweakId::DisableDataExecutionPrevention => 25,
        TweakId::DisableWindowsDefender => 26,
        TweakId::DisablePageFileEncryption => 27,
        TweakId::DisableCpuIdleStates => 28,
        TweakId::KillAllNonCriticalServices => 29,
        TweakId::DisableIntelTSX => 30,
        TweakId::DisableWindowsMaintenance => 31,
        TweakId::KillExplorer => 32,
        TweakId::HighPerformanceVisualSettings => 33,
        TweakId::LowResMode => 34,
        TweakId::SplitLargeCaches => 35,
        TweakId::DisableProtectedServices => 36,
        TweakId::DisableSecurityAccountsManager => 37,
        TweakId::DisablePagingCombining => 38,
        TweakId::DisableSuperfetch => 39,
        TweakId::EnableMcsss => 40,
        TweakId::AutomaticIbrsEnable => 41,
        TweakId::AggressivePrefetchProfile => 42,
        TweakId::DisableUpDownPrefetcher => 43,
        TweakId::DisableL2StreamPrefetcher => 44,
        TweakId::DisableL1RegionPrefetcher => 45,
        TweakId::DisableL1StreamPrefetcher => 46,
        TweakId::DisableL1StridePrefetcher => 47,
        TweakId::EnableMtrrFixedDramAttributes => 48,
        TweakId::EnableMtrrFixedDramModification => 49,
        TweakId::EnableTranslationCacheExtension => 50,
        TweakId::EnableFastFxsaveFrstor => 51,
        TweakId::DisbleControlFlowEnforcement => 52,
        TweakId::EnableInterruptibleWbinvd => 53,
        TweakId::EnableL3CodeDataPrioritization => 54,
        TweakId::DisableStreamingStores => 55,
        TweakId::DisableRedirectForReturn => 56,
        TweakId::DisableOpCache => 57,
        TweakId::SpeculativeStoreModes => 58,
        TweakId::DisableAvx512 => 59,
        TweakId::DisableFastShortRepMovsb => 60,
        TweakId::DisableEnhancedRepMovsbStosb => 61,
        TweakId::DisableRepMovStosStreaming => 62,
        TweakId::DisableCoreWatchdogTimer => 63,
        TweakId::DisablePlatformFirstErrorHandling => 64,
        TweakId::AlchemyKernelTweak => 65,
        TweakId::DisableDps => 66,
        TweakId::SlowMode => 67,
        TweakId::DisableProcessIdleStates => 68,
    }
}

/// The identifier at a given position of the declaration order.
pub open spec fn id_at(n: nat) -> TweakId {
    if n == 0 {
        TweakId::LargeSystemCache
    } else if n == 1 {
        TweakId::SystemResponsiveness
    } else if n == 2 {
        TweakId::DisableHWAcceleration
    } else if n == 3 {
        TweakId::Win32PrioritySeparation
    } else if n == 4 {
        TweakId::DisableCoreParking
    } else if n == 5 {
        TweakId::ProcessIdleTasks
    } else if n == 6 {
        TweakId::SeLockMemoryPrivilege
    } else if n == 7 {
        TweakId::UltimatePerformancePlan
    } else if n == 8 {
        TweakId::NoLowDiskSpaceChecks
    } else if n == 9 {
        TweakId::AdditionalKernelWorkerThreads
    } else if n == 10 {
        TweakId::DisableHPET
    } else if n == 11 {
        TweakId::DisableRamCompression
    } else if n == 12 {
        TweakId::DisableApplicationTelemetry
    } else if n == 13 {
        TweakId::DisableWindowsErrorReporting
    } else if n == 14 {
        TweakId::DisableTlbCache
    } else if n == 15 {
        TweakId::DisableMcaStatusWriteEnable
    } else if n == 16 {
        TweakId::DisableLocalFirewall
    } else if n == 17 {
        TweakId::DontVerifyRandomDrivers
    } else if n == 18 {
        TweakId::DisableDriverPaging
    } else if n == 19 {
        TweakId::DisablePrefetcher
    } else if n == 20 {
        TweakId::DisableSuccessAuditing
    } else if n == 21 {
        TweakId::ThreadDpcDisable
    } else if n == 22 {
        TweakId::SvcHostSplitThreshold
    } else if n == 23 {
        TweakId::DisablePagefile
    } else if n == 24 {
        TweakId::SpeculativeExecutionMitigations
    } else if n == 25 {
        TweakId::DisableDataExecutionPrevention
    } else if n == 26 {
        TweakId::DisableWindowsDefender
    } else if n == 27 {
        TweakId::DisablePageFileEncryption
    } else if n == 28 {
        TweakId::DisableCpuIdleStates
    } else if n == 29 {
        TweakId::KillAllNonCriticalServices
    } else if n == 30 {
        TweakId::DisableIntelTSX
    } else if n == 31 {
        TweakId::DisableWindowsMaintenance
    } else if n == 32 {
        TweakId::KillExplorer
    } else if n == 33 {
        TweakId::HighPerformanceVisualSettings
    } else if n == 34 {
        TweakId::LowResMode
    } else if n == 35 {
        TweakId::SplitLargeCaches
    } else if n == 36 {
        TweakId::DisableProtectedServices
    } else if n == 37 {
        TweakId::DisableSecurityAccountsManager
    } else if n == 38 {
        TweakId::DisablePagingCombining
    } else if n == 39 {
        TweakId::DisableSuperfetch
    } else if n == 40 {
        TweakId::EnableMcsss
    } else if n == 41 {
        TweakId::AutomaticIbrsEnable
    } else if n == 42 {
        TweakId::AggressivePrefetchProfile
    } else if n == 43 {
        TweakId::DisableUpDownPrefetcher
    } else if n == 44 {
        TweakId::DisableL2StreamPrefetcher
    } else if n == 45 {
        TweakId::DisableL1RegionPrefetcher
    } else if n == 46 {
        TweakId::DisableL1StreamPrefetcher
    } else if n == 47 {
        TweakId::DisableL1StridePrefetcher
    } else if n == 48 {
        TweakId::EnableMtrrFixedDramAttributes
    } else if n == 49 {
        TweakId::EnableMtrrFixedDramModification
    } else if n == 50 {
        TweakId::EnableTranslationCacheExtension
    } else if n == 51 {
        TweakId::EnableFastFxsaveFrstor
    } else if n == 52 {
        TweakId::DisbleControlFlowEnforcement
    } else if n == 53 {
        TweakId::EnableInterruptibleWbinvd
    } else if n == 54 {
        TweakId::EnableL3CodeDataPrioritization
    } else if n == 55 {
        TweakId::DisableStreamingStores
    } else if n == 56 {
        TweakId::DisableRedirectForReturn
    } else if n == 57 {
        TweakId::DisableOpCache
    } else if n == 58 {
        TweakId::SpeculativeStoreModes
    } else if n == 59 {
        TweakId::DisableAvx512
    } else if n == 60 {
        TweakId::DisableFastShortRepMovsb
    } else if n == 61 {
        TweakId::DisableEnhancedRepMovsbStosb
    } else if n == 62 {
        TweakId::DisableRepMovStosStreaming
    } else if n == 63 {
        TweakId::DisableCoreWatchdogTimer
    } else if n == 64 {
        TweakId::DisablePlatformFirstErrorHandling
    } else if n == 65 {
        TweakId::AlchemyKernelTweak
    } else if n == 66 {
        TweakId::DisableDps
    } else if n == 67 {
        TweakId::SlowMode
    } else {
        TweakId::DisableProcessIdleStates
    }
}

impl TweakId {
    /// The position of this identifier in declaration order.
    pub fn ordinal(&self) -> (r: u32)
        ensures
            r == id_ordinal(*self),
    {
        match self {
            TweakId::LargeSystemCache => 0,
            TweakId::SystemResponsiveness => 1,
            TweakId::DisableHWAcceleration => 2,
            TweakId::Win32PrioritySeparation => 3,
            TweakId::DisableCoreParking => 4,
            TweakId::ProcessIdleTasks => 5,
            TweakId::SeLockMemoryPrivilege => 6,
            TweakId::UltimatePerformancePlan => 7,
            TweakId::NoLowDiskSpaceChecks => 8,
            TweakId::AdditionalKernelWorkerThreads => 9,
            TweakId::DisableHPET => 10,
            TweakId::DisableRamCompression => 11,
            TweakId::DisableApplicationTelemetry => 12,
            TweakId::DisableWindowsErrorReporting => 13,
            TweakId::DisableTlbCache => 14,
            TweakId::DisableMcaStatusWriteEnable => 15,
            TweakId::DisableLocalFirewall => 16,
            TweakId::DontVerifyRandomDrivers => 17,
            TweakId::DisableDriverPaging => 18,
            TweakId::DisablePrefetcher => 19,
            TweakId::DisableSuccessAuditing => 20,
            TweakId::ThreadDpcDisable => 21,
            TweakId::SvcHostSplitThreshold => 22,
            TweakId::DisablePagefile => 23,
            TweakId::SpeculativeExecutionMitigations => 24,
            TweakId::DisableDataExecutionPrevention => 25,
            TweakId::DisableWindowsDefender => 26,
            TweakId::DisablePageFileEncryption => 27,
            TweakId::DisableCpuIdleStates => 28,
            TweakId::KillAllNonCriticalServices => 29,
            TweakId::DisableIntelTSX => 30,
            TweakId::DisableWindowsMaintenance => 31,
            TweakId::KillExplorer => 32,
            TweakId::HighPerformanceVisualSettings => 33,
            TweakId::LowResMode => 34,
            TweakId::SplitLargeCaches => 35,
            TweakId::DisableProtectedServices => 36,
            TweakId::DisableSecurityAccountsManager => 37,
            TweakId::DisablePagingCombining => 38,
            TweakId::DisableSuperfetch => 39,
            TweakId::EnableMcsss => 40,
            TweakId::AutomaticIbrsEnable => 41,
            TweakId::AggressivePrefetchProfile => 42,
            TweakId::DisableUpDownPrefetcher => 43,
            TweakId::DisableL2StreamPrefetcher => 44,
            TweakId::DisableL1RegionPrefetcher => 45,
            TweakId::DisableL1StreamPrefetcher => 46,
            TweakId::DisableL1StridePrefetcher => 47,
            TweakId::EnableMtrrFixedDramAttributes => 48,
            TweakId::EnableMtrrFixedDramModification => 49,
            TweakId::EnableTranslationCacheExtension => 50,
            TweakId::EnableFastFxsaveFrstor => 51,
            TweakId::DisbleControlFlowEnforcement => 52,
            TweakId::EnableInterruptibleWbinvd => 53,
            TweakId::EnableL3CodeDataPrioritization => 54,
            TweakId::DisableStreamingStores => 55,
            TweakId::DisableRedirectForReturn => 56,
            TweakId::DisableOpCache => 57,
            TweakId::SpeculativeStoreModes => 58,
            TweakId::DisableAvx512 => 59,
            TweakId::DisableFastShortRepMovsb => 60,
            TweakId::DisableEnhancedRepMovsbStosb => 61,
            TweakId::DisableRepMovStosStreaming => 62,
            TweakId::DisableCoreWatchdogTimer => 63,
            TweakId::DisablePlatformFirstErrorHandling => 64,
            TweakId::AlchemyKernelTweak => 65,
            TweakId::DisableDps => 66,
            TweakId::SlowMode => 67,
            TweakId::DisableProcessIdleStates => 68,
        }
    }

    /// Every identifier, in declaration order.
    pub fn variants() -> (r: Vec<TweakId>)
        ensures
            r.len() == TWEAK_ID_COUNT,
            forall|i: int| 0 <= i < r.len() ==> #[trigger] r[i] == id_at(i as nat),
    {
        let r = vec![
            TweakId::LargeSystemCache,
            TweakId::SystemResponsiveness,
            TweakId::DisableHWAcceleration,
            TweakId::Win32PrioritySeparation,
            TweakId::DisableCoreParking,
            TweakId::ProcessIdleTasks,
            TweakId::SeLockMemoryPrivilege,
            TweakId::UltimatePerformancePlan,
            TweakId::NoLowDiskSpaceChecks,
            TweakId::AdditionalKernelWorkerThreads,
            TweakId::DisableHPET,
            TweakId::DisableRamCompression,
            TweakId::DisableApplicationTelemetry,
            TweakId::DisableWindowsErrorReporting,
            TweakId::DisableTlbCache,
            TweakId::DisableMcaStatusWriteEnable,
            TweakId::DisableLocalFirewall,
            TweakId::DontVerifyRandomDrivers,
            TweakId::DisableDriverPaging,
            TweakId::DisablePrefetcher,
            TweakId::DisableSuccessAuditing,
            TweakId::ThreadDpcDisable,
            TweakId::SvcHostSplitThreshold,
            TweakId::DisablePagefile,
            TweakId::SpeculativeExecutionMitigations,
            TweakId::DisableDataExecutionPrevention,
            TweakId::DisableWindowsDefender,
            TweakId::DisablePageFileEncryption,
            TweakId::DisableCpuIdleStates,
            TweakId::KillAllNonCriticalServices,
            TweakId::DisableIntelTSX,
            TweakId::DisableWindowsMaintenance,
            TweakId::KillExplorer,
            TweakId::HighPerformanceVisualSettings,
            TweakId::LowResMode,
            TweakId::SplitLargeCaches,
            TweakId::DisableProtectedServices,
            TweakId::DisableSecurityAccountsManager,
            TweakId::DisablePagingCombining,
            TweakId::DisableSuperfetch,
            TweakId::EnableMcsss,
            TweakId::AutomaticIbrsEnable,
            TweakId::AggressivePrefetchProfile,
            TweakId::DisableUpDownPrefetcher,
            TweakId::DisableL2StreamPrefetcher,
            TweakId::DisableL1RegionPrefetcher,
            TweakId::DisableL1StreamPrefetcher,
            TweakId::DisableL1StridePrefetcher,
            TweakId::EnableMtrrFixedDramAttributes,
            TweakId::EnableMtrrFixedDramModification,
            TweakId::EnableTranslationCacheExtension,
            TweakId::EnableFastFxsaveFrstor,
            TweakId::DisbleControlFlowEnforcement,
            TweakId::EnableInterruptibleWbinvd,
            TweakId::EnableL3CodeDataPrioritization,
            TweakId::DisableStreamingStores,
            TweakId::DisableRedirectForReturn,
            TweakId::DisableOpCache,
            TweakId::SpeculativeStoreModes,
            TweakId::DisableAvx512,
            TweakId::DisableFastShortRepMovsb,
            TweakId::DisableEnhancedRepMovsbStosb,
            TweakId::DisableRepMovStosStreaming,
            TweakId::DisableCoreWatchdogTimer,
            TweakId::DisablePlatformFirstErrorHandling,
            TweakId::AlchemyKernelTweak,
            TweakId::DisableDps,
            TweakId::SlowMode,
            TweakId::DisableProcessIdleStates,
        ];
        assert(r@ =~= Seq::new(TWEAK_ID_COUNT as nat, |i: int| id_at(i as nat)));
        r
    }
}

/// `id_at` and `id_ordinal` are inverse to one another.
pub proof fn lemma_id_ordinal_inverse(id: TweakId)
    ensures
        id_ordinal(id) < TWEAK_ID_COUNT,
        id_at(id_ordinal(id)) == id,
{
}

/// Every position below the count names an identifier with that ordinal.
pub proof fn lemma_id_at_ordinal(n: nat)
    requires
        n < TWEAK_ID_COUNT,
    ensures
        id_ordinal(id_at(n)) == n,
{
}

/// The choices a tweak offers: a one-shot action, an on/off switch, or a
/// named setting.
#[derive(Debug, Clone, Hash, Eq, Ord, PartialOrd)]
pub enum TweakOption {
    Run,
    Enabled(bool),
    Option(String),
}

/// The mathematical value of a `TweakOption`: the text of a named setting is
/// its sequence of characters.
pub enum OptionView {
    Run,
    Enabled(bool),
    Choice(Seq<char>),
}

impl View for TweakOption {
    type V = OptionView;

    open spec fn view(&self) -> OptionView {
        match self {
            TweakOption::Run => OptionView::Run,
            TweakOption::Enabled(b) => OptionView::Enabled(*b),
            TweakOption::Option(s) => OptionView::Choice(s@),
        }
    }
}

impl PartialEq for TweakOption {
    fn eq(&self, other: &Self) -> (r: bool) {
        match (self, other) {
            (TweakOption::Run, TweakOption::Run) => true,
            (TweakOption::Enabled(a), TweakOption::Enabled(b)) => *a == *b,
            (TweakOption::Option(a), TweakOption::Option(b)) => a.eq(b),
            _ => false,
        }
    }
}

impl vstd::std_specs::cmp::PartialEqSpecImpl for TweakOption {
    open spec fn obeys_eq_spec() -> bool {
        true
    }

    open spec fn eq_spec(&self, other: &Self) -> bool {
        self@ == other@
    }
}

impl TweakOption {
    /// A copy of this option, equal to it as a value.
    pub fn duplicate(&self) -> (r: TweakOption)
        ensures
            r == *self,
    {
        match self {
            TweakOption::Run => TweakOption::Run,
            TweakOption::Enabled(b) => TweakOption::Enabled(*b),
            TweakOption::Option(s) => TweakOption::Option(s.clone()),
        }
    }

    /// Whether two options are the same choice.
    pub fn same_as(&self, other: &TweakOption) -> (r: bool)
        ensures
            r == (self@ == other@),
    {
        self == other
    }
}

/// The default option of an on/off tweak.
pub open spec fn default_option_view() -> OptionView {
    OptionView::Enabled(false)
}

/// The progress of a tweak in the interface.
#[derive(Debug)]
pub enum TweakStatus {
    Idle,
    Busy,
    Failed(String),
}

/// The group a tweak is shown in.
#[derive(Debug, Clone, Copy, PartialEq, Eq, Structural)]
pub enum TweakCategory {
    Action,
    Cpu,
    System,
    Power,
    Kernel,
    Memory,
    Security,
    Graphics,
    Telemetry,
    Services,
}

impl TweakCategory {
    /// The categories of the left column.
    pub fn left() -> (r: Vec<Self>)
        ensures
            r@ == seq![TweakCategory::System, TweakCategory::Kernel, TweakCategory::Memory, TweakCategory::Graphics],
    {
        let r = vec![Self::System, Self::Kernel, Self::Memory, Self::Graphics];
        assert(r@ =~= seq![TweakCategory::System, TweakCategory::Kernel, TweakCategory::Memory, TweakCategory::Graphics]);
        r
    }

    /// The categories of the middle column.
    pub fn middle() -> (r: Vec<Self>)
        ensures
            r@ == seq![TweakCategory::Power, TweakCategory::Security, TweakCategory::Telemetry, TweakCategory::Services],
    {
        let r = vec![Self::Power, Self::Security, Self::Telemetry, Self::Services];
        assert(r@ =~= seq![TweakCategory::Power, TweakCategory::Security, TweakCategory::Telemetry, TweakCategory::Services]);
        r
    }

    /// The categories of the right column.
    pub fn right() -> (r: Vec<Self>)
        ensures
            r@ == seq![TweakCategory::Cpu],
    {
        let r = vec![Self::Cpu];
        assert(r@ =~= seq![TweakCategory::Cpu]);
        r
    }
}

/// The control that shows a tweak: a switch, a button or a list of settings.
#[derive(Debug, Clone, Copy, PartialEq, Eq, Structural)]
pub enum TweakWidget {
    Toggle,
    Button,
    SettingsComboBox,
}

/// The control for a tweak whose first option is `o`: a switch for an on/off
/// option, a list for a named setting, a button for an action.
pub open spec fn widget_for(o: OptionView) -> TweakWidget {
    match o {
        OptionView::Enabled(_) => TweakWidget::Toggle,
        OptionView::Choice(_) => TweakWidget::SettingsComboBox,
        OptionView::Run => TweakWidget::Button,
    }
}

fn widget_for_option(o: &TweakOption) -> (r: TweakWidget)
    ensures
        r == widget_for(o@),
{
    match o {
        TweakOption::Enabled(_) => TweakWidget::Toggle,
        TweakOption::Option(_) => TweakWidget::SettingsComboBox,
        TweakOption::Run => TweakWidget::Button,
    }
}

/// The tweaks that the tool implements with calls of its own into Windows.
#[derive(Debug)]
pub enum WinapiMethod {
    UltimatePerformancePlan(UltimatePerformancePlan),
    SlowMode(SlowMode),
    LowResMode(LowResMode),
    DisableProcessIdleStates(DisableProcessIdleStates),
    KillNonCriticalServices(KillNonCriticalServicesTweak),
    KillExplorer(KillExplorerTweak),
}

/// How a tweak is read, applied and reverted.
#[derive(Debug)]
pub enum TweakMethodKind {
    Registry(RegistryTweak),
    Powershell(PowershellTweak),
    GroupPolicy(GroupPolicyTweak),
    Msr(MSRTweak),
    Winapi(WinapiMethod),
}

/// A tweak that can be applied to the system.
#[derive(Debug)]
pub struct Tweak {
    /// Display name of the tweak.
    pub name: &'static str,
    /// Description of the tweak and its effects.
    pub description: String,
    /// Category of the tweak, used for grouping tweaks.
    pub category: TweakCategory,
    /// The method used to apply or revert the tweak.
    pub method: TweakMethodKind,
    /// The control that shows the tweak.
    pub widget: TweakWidget,
    /// The available options for the tweak.
    pub options: Vec<TweakOption>,
    /// The option currently in force.
    pub state: TweakOption,
    /// The status of the tweak.
    pub status: TweakStatus,
    /// Whether the tweak needs a restart of the system to take effect.
    pub requires_reboot: bool,
    /// Whether the tweak was applied in this session and still waits for a restart.
    pub pending_reboot: bool,
}

/// The options of a tweak, as values.
pub open spec fn option_views(v: Seq<TweakOption>) -> Seq<OptionView> {
    v.map_values(|o: TweakOption| o@)
}

/// The fields that every constructor sets the same way.
pub open spec fn fresh_tweak(t: Tweak, name: &'static str, description: Seq<char>, category: TweakCategory, requires_reboot: bool) -> bool {
    &&& t.name == name
    &&& t.description@ == description
    &&& t.category == category
    &&& t.requires_reboot == requires_reboot
    &&& t.status is Idle
    &&& !t.pending_reboot
}

/// A tweak whose options are `keys`, in force at the first of them, and
/// shown by the control that fits that first option.
pub open spec fn keyed_tweak(t: Tweak, keys: Seq<OptionView>) -> bool {
    &&& keys.len() > 0
    &&& option_views(t.options@) == keys
    &&& t.state@ == keys[0]
    &&& t.widget == widget_for(keys[0])
}

/// A registry tweak with identifier `id` whose option table, as values, is
/// `table`.
pub open spec fn registry_table(t: Tweak, id: TweakId, table: Seq<(OptionView, Seq<ModificationView>)>) -> bool {
    &&& t.method matches TweakMethodKind::Registry(m)
    &&& m.id == id
    &&& table_view(m.entries()) == table
}

/// A register tweak with identifier `id`, readable or not, whose option
/// table, as values, is `table`.
pub open spec fn msr_table(t: Tweak, id: TweakId, readable: bool, table: Seq<(OptionView, Seq<MsrState>)>) -> bool {
    &&& t.method matches TweakMethodKind::Msr(m)
    &&& m.id == id
    &&& m.readable == readable
    &&& msr_table_view(m.entries()) == table
}

/// A PowerShell tweak with identifier `id` and read script `read_script`
/// whose actions, keyed by option values, are `table`.
pub open spec fn powershell_table(t: Tweak, id: TweakId, read_script: Option<&'static str>, table: Seq<(OptionView, PowershellAction)>) -> bool {
    &&& t.method matches TweakMethodKind::Powershell(m)
    &&& m.id == id
    &&& m.read_script == read_script
    &&& actions_view(m.options@) == table
}

/// A group policy tweak with identifier `id` on the right `key` whose
/// option table, as values, is `table`.
pub open spec fn policy_table(t: Tweak, id: TweakId, key: &'static str, table: Seq<(OptionView, GroupPolicyValue)>) -> bool {
    &&& t.method matches TweakMethodKind::GroupPolicy(m)
    &&& m.id == id
    &&& m.key == key
    &&& policy_table_view(m.entries()) == table
}

proof fn lemma_views_push(v: Seq<TweakOption>, x: TweakOption)
    ensures
        option_views(v.push(x)) == option_views(v).push(x@),
{
    assert(option_views(v.push(x)) =~= option_views(v).push(x@));
}

proof fn lemma_keys_take<V>(s: Seq<(TweakOption, V)>, i: int)
    requires
        0 <= i < s.len(),
    ensures
        entry_keys(s).take(i + 1) == entry_keys(s).take(i).push(s[i].0@),
{
    assert(entry_keys(s).take(i + 1) =~= entry_keys(s).take(i).push(s[i].0@));
}

impl Tweak {
    /// A tweak made of registry modifications. Its options are those of the
    /// option table, in order; it starts at the first of them.
    pub fn registry_tweak(name: &'static str, description: &str, category: TweakCategory, method: RegistryTweak, requires_reboot: bool) -> (r: Self)
        requires
            registry_option_entries(method.options).len() > 0,
        ensures
            fresh_tweak(r, name, description@, category, requires_reboot),
            keyed_tweak(r, entry_keys(registry_option_entries(method.options))),
            r.method == TweakMethodKind::Registry(method),
    {
        let n = registry_options_len(&method.options);
        let mut options: Vec<TweakOption> = Vec::new();
        let mut i: usize = 0;
        while i < n
            invariant
                n == registry_option_entries(method.options).len(),
                i <= n,
                option_views(options@) == entry_keys(registry_option_entries(method.options)).take(i as int),
            decreases n - i,
        {
            let ghost old_options = options@;
            match registry_options_get_index(&method.options, i) {
                Some((k, _)) => {
                    options.push(k.duplicate());
                },
                None => {},
            }
            proof {
                lemma_views_push(old_options, options@.last());
                lemma_keys_take(registry_option_entries(method.options), i as int);
            }
            i = i + 1;
        }
        assert(entry_keys(registry_option_entries(method.options)).take(n as int) =~= entry_keys(registry_option_entries(method.options)));
        let state = options[0].duplicate();
        let widget = widget_for_option(&state);
        Self {
            name,
            description: String::from_str(description),
            category,
            method: TweakMethodKind::Registry(method),
            widget,
            options,
            requires_reboot,
            status: TweakStatus::Idle,
            state,
            pending_reboot: false,
        }
    }

    /// A tweak driven by PowerShell scripts. Its options are those of its
    /// actions, in order; it starts at the first of them.
    pub fn powershell_tweak(name: &'static str, description: &str, category: TweakCategory, method: PowershellTweak, requires_reboot: bool) -> (r: Self)
        requires
            method.options.len() > 0,
            method.wf(),
        ensures
            fresh_tweak(r, name, description@, category, requires_reboot),
            keyed_tweak(r, entry_keys(method.options@)),
            forall|i: int, j: int| 0 <= i < j < r.options.len() ==> r.options@[i]@ != r.options@[j]@,
            r.method == TweakMethodKind::Powershell(method),
    {
        let mut options: Vec<TweakOption> = Vec::new();
        let mut i: usize = 0;
        while i < method.options.len()
            invariant
                i <= method.options.len(),
                option_views(options@) == entry_keys(method.options@).take(i as int),
            decreases method.options.len() - i,
        {
            let ghost old_options = options@;
            options.push(method.options[i].0.duplicate());
            proof {
                lemma_views_push(old_options, options@.last());
                lemma_keys_take(method.options@, i as int);
            }
            i = i + 1;
        }
        assert(entry_keys(method.options@).take(method.options.len() as int) =~= entry_keys(method.options@));
        assert forall|i: int, j: int| 0 <= i < j < options.len() implies options@[i]@ != options@[j]@ by {
            assert(option_views(options@)[i] == options@[i]@);
            assert(option_views(options@)[j] == options@[j]@);
            assert(entry_keys(method.options@)[i] == method.options@[i].0@);
            assert(entry_keys(method.options@)[j] == method.options@[j].0@);
        }
        let state = options[0].duplicate();
        let widget = widget_for_option(&state);
        Self {
            name,
            description: String::from_str(description),
            category,
            method: TweakMethodKind::Powershell(method),
            widget,
            options,
            requires_reboot,
            status: TweakStatus::Idle,
            state,
            pending_reboot: false,
        }
    }

    /// A tweak that grants or withdraws a user right. Its options are those
    /// of the option table, in order; it starts at the first of them.
    pub fn group_policy_tweak(name: &'static str, description: &str, category: TweakCategory, method: GroupPolicyTweak, requires_reboot: bool) -> (r: Self)
        requires
            policy_option_entries(method.options).len() > 0,
        ensures
            fresh_tweak(r, name, description@, category, requires_reboot),
            keyed_tweak(r, entry_keys(policy_option_entries(method.options))),
            r.method == TweakMethodKind::GroupPolicy(method),
    {
        let n = policy_options_len(&method.options);
        let mut options: Vec<TweakOption> = Vec::new();
        let mut i: usize = 0;
        while i < n
            invariant
                n == policy_option_entries(method.options).len(),
                i <= n,
                option_views(options@) == entry_keys(policy_option_entries(method.options)).take(i as int),
            decreases n - i,
        {
            let ghost old_options = options@;
            match policy_options_get_index(&method.options, i) {
                Some((k, _)) => {
                    options.push(k.duplicate());
                },
                None => {},
            }
            proof {
                lemma_views_push(old_options, options@.last());
                lemma_keys_take(policy_option_entries(method.options), i as int);
            }
            i = i + 1;
        }
        assert(entry_keys(policy_option_entries(method.options)).take(n as int) =~= entry_keys(policy_option_entries(method.options)));
        let state = options[0].duplicate();
        let widget = widget_for_option(&state);
        Self {
            name,
            description: String::from_str(description),
            category,
            method: TweakMethodKind::GroupPolicy(method),
            widget,
            options,
            requires_reboot,
            status: TweakStatus::Idle,
            state,
            pending_reboot: false,
        }
    }

    /// A tweak implemented with calls into Windows: an on/off switch that
    /// starts off.
    pub fn winapi(name: &'static str, description: &str, category: TweakCategory, method: WinapiMethod, widget: TweakWidget, requires_reboot: bool) -> (r: Self)
        ensures
            fresh_tweak(r, name, description@, category, requires_reboot),
            option_views(r.options@) == seq![OptionView::Enabled(false), OptionView::Enabled(true)],
            r.state == TweakOption::Enabled(false),
            r.widget == widget,
            r.method == TweakMethodKind::Winapi(method),
    {
        let options = vec![TweakOption::Enabled(false), TweakOption::Enabled(true)];
        assert(option_views(options@) =~= seq![OptionView::Enabled(false), OptionView::Enabled(true)]);
        Self {
            name,
            description: String::from_str(description),
            category,
            method: TweakMethodKind::Winapi(method),
            options,
            widget,
            requires_reboot,
            status: TweakStatus::Idle,
            state: TweakOption::Enabled(false),
            pending_reboot: false,
        }
    }

    /// A tweak made of register bits. Its options are those of the option
    /// table, in order, and its control fits the first of them; it starts at
    /// `Enabled(false)` and needs no restart.
    pub fn msr_tweak(name: &'static str, description: &str, category: TweakCategory, method: MSRTweak) -> (r: Self)
        requires
            msr_option_entries(method.options).len() > 0,
        ensures
            fresh_tweak(r, name, description@, category, false),
            option_views(r.options@) == entry_keys(msr_option_entries(method.options)),
            r.widget == widget_for(entry_keys(msr_option_entries(method.options))[0]),
            r.state == TweakOption::Enabled(false),
            r.method == TweakMethodKind::Msr(method),
    {
        let n = msr_options_len(&method.options);
        let mut options: Vec<TweakOption> = Vec::new();
        let mut i: usize = 0;
        while i < n
            invariant
                n == msr_option_entries(method.options).len(),
                i <= n,
                option_views(options@) == entry_keys(msr_option_entries(method.options)).take(i as int),
            decreases n - i,
        {
            let ghost old_options = options@;
            match msr_options_get_index(&method.options, i) {
                Some((k, _)) => {
                    options.push(k.duplicate());
                },
                None => {},
            }
            proof {
                lemma_views_push(old_options, options@.last());
                lemma_keys_take(msr_option_entries(method.options), i as int);
            }
            i = i + 1;
        }
        assert(entry_keys(msr_option_entries(method.options)).take(n as int) =~= entry_keys(msr_option_entries(method.options)));
        let widget = widget_for_option(&options[0]);
        Self {
            name,
            description: String::from_str(description),
            category,
            method: TweakMethodKind::Msr(method),
            options,
            widget,
            requires_reboot: false,
            status: TweakStatus::Idle,
            state: TweakOption::Enabled(false),
            pending_reboot: false,
        }
    }
}

} // verus!
