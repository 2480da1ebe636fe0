//! Registry tweaks of the kernel: deferred procedure calls, worker threads
//! and a set of scheduler and queue settings.
use vstd::prelude::*;
use vstd::string::StringExecFns;
use crate::indexed::{entry_keys, lemma_indexed_from_identity, registry_options_from};
use crate::tweaks::{
    fresh_tweak, keyed_tweak, registry_table, OptionView, Tweak, TweakCategory, TweakId,
    TweakOption,
};
use super::method::{delete_value, 
    set_dword, table_view, ModificationView, RegistryKeyValue, RegistryModification,
    RegistryTweak,
};

verus! {

/// The description of the "Thread DPC" tweak.
pub const THREAD_DPC_DISABLE_DESCRIPTION: &'static str = "Controls whether Deferred Procedure Calls (DPCs) are processed in thread context. When disabled:\n• Forces DPCs to run in interrupt context instead of dedicated DPC threads\n• May reduce latency for interrupt processing\n• Could improve performance in certain real-time scenarios";

/// The option table of the "Thread DPC" tweak: each option with the registry
/// values it writes, in order.
pub open spec fn thread_dpc_disable_table() -> Seq<(OptionView, Seq<ModificationView>)> {
    seq![
        (OptionView::Enabled(false), seq![
            set_dword("HKEY_LOCAL_MACHINE\\SYSTEM\\CurrentControlSet\\Control\\Session Manager\\kernel", "ThreadDpcEnable", 1),
        ]),
        (OptionView::Enabled(true), seq![
            set_dword("HKEY_LOCAL_MACHINE\\SYSTEM\\CurrentControlSet\\Control\\Session Manager\\kernel", "ThreadDpcEnable", 0),
        ]),
    ]
}

/// The "Thread DPC" tweak as `thread_dpc_disable` builds it.
#[verifier::opaque]
pub open spec fn is_thread_dpc_disable(t: Tweak) -> bool {
    &&& fresh_tweak(t, "Thread DPC", THREAD_DPC_DISABLE_DESCRIPTION@, TweakCategory::Kernel, true)
    &&& keyed_tweak(t, seq![OptionView::Enabled(false), OptionView::Enabled(true)])
    &&& registry_table(t, TweakId::ThreadDpcDisable, thread_dpc_disable_table())
}

/// Builds the "Thread DPC" tweak.
pub fn thread_dpc_disable() -> (r: Tweak)
    ensures
        is_thread_dpc_disable(r),
{
    let options = vec![
        (TweakOption::Enabled(false), vec![
            RegistryModification { path: "HKEY_LOCAL_MACHINE\\SYSTEM\\CurrentControlSet\\Control\\Session Manager\\kernel", key: "ThreadDpcEnable", value: RegistryKeyValue::Dword(1) },
        ]),
        (TweakOption::Enabled(true), vec![
            RegistryModification { path: "HKEY_LOCAL_MACHINE\\SYSTEM\\CurrentControlSet\\Control\\Session Manager\\kernel", key: "ThreadDpcEnable", value: RegistryKeyValue::Dword(0) },
        ]),
    ];
    proof {
        lemma_indexed_from_identity(options@);
        assert(table_view(options@) =~~= thread_dpc_disable_table());
        assert(entry_keys(options@) =~= seq![OptionView::Enabled(false), OptionView::Enabled(true)]);
    }
    let r = Tweak::registry_tweak(
        "Thread DPC",
        THREAD_DPC_DISABLE_DESCRIPTION,
        TweakCategory::Kernel,
        RegistryTweak { id: TweakId::ThreadDpcDisable, options: registry_options_from(options) },
        true,
    );
    proof {
        reveal(is_thread_dpc_disable);
    }
    r
}

/// The description of the "Kernel Worker Threads" tweak.
pub const ADDITIONAL_KERNEL_WORKER_THREADS_DESCRIPTION: &'static str = "Controls the number of additional worker threads in the Windows kernel thread pool beyond the default allocation. These threads handle:\n• Critical threads: High-priority system operations and I/O requests\n• Delayed threads: Background and maintenance tasks\nAvailable options:\n• Default (0): Windows manages thread count automatically\n• Per Core: Adds one thread of each type per logical processor\n• Maximum: Adds two threads of each type per logical processor";

/// The option table of the "Kernel Worker Threads" tweak on a machine with
/// `logical_processors` logical processors: each option with the registry
/// values it writes, in order. "Per Core" adds one thread of each kind per
/// logical processor and "Maximum" two.
pub open spec fn additional_kernel_worker_threads_table(logical_processors: u32) -> Seq<(OptionView, Seq<ModificationView>)> {
    seq![
        (OptionView::Choice("Default"@), seq![
            set_dword("HKEY_LOCAL_MACHINE\\SYSTEM\\CurrentControlSet\\Control\\Session Manager\\Executive", "AdditionalCriticalWorkerThreads", 0),
            set_dword("HKEY_LOCAL_MACHINE\\SYSTEM\\CurrentControlSet\\Control\\Session Manager\\Executive", "AdditionalDelayedWorkerThreads", 0),
        ]),
        (OptionView::Choice("Per Core"@), seq![
            set_dword("HKEY_LOCAL_MACHINE\\SYSTEM\\CurrentControlSet\\Control\\Session Manager\\Executive", "AdditionalCriticalWorkerThreads", logical_processors),
            set_dword("HKEY_LOCAL_MACHINE\\SYSTEM\\CurrentControlSet\\Control\\Session Manager\\Executive", "AdditionalDelayedWorkerThreads", logical_processors),
        ]),
        (OptionView::Choice("Maximum"@), seq![
            set_dword("HKEY_LOCAL_MACHINE\\SYSTEM\\CurrentControlSet\\Control\\Session Manager\\Executive", "AdditionalCriticalWorkerThreads", (2 * logical_processors) as u32),
            set_dword("HKEY_LOCAL_MACHINE\\SYSTEM\\CurrentControlSet\\Control\\Session Manager\\Executive", "AdditionalDelayedWorkerThreads", (2 * logical_processors) as u32),
        ]),
    ]
}

/// The "Kernel Worker Threads" tweak as `additional_kernel_worker_threads` builds it.
#[verifier::opaque]
pub open spec fn is_additional_kernel_worker_threads(t: Tweak, logical_processors: u32) -> bool {
    &&& fresh_tweak(t, "Kernel Worker Threads", ADDITIONAL_KERNEL_WORKER_THREADS_DESCRIPTION@, TweakCategory::Kernel, true)
    &&& keyed_tweak(t, seq![OptionView::Choice("Default"@), OptionView::Choice("Per Core"@), OptionView::Choice("Maximum"@)])
    &&& registry_table(t, TweakId::AdditionalKernelWorkerThreads, additional_kernel_worker_threads_table(logical_processors))
}

/// Builds the "Kernel Worker Threads" tweak for a machine with
/// `logical_processors` logical processors.
pub fn additional_kernel_worker_threads(logical_processors: u32) -> (r: Tweak)
    requires
        logical_processors <= 0x7FFF_FFFF,
    ensures
        is_additional_kernel_worker_threads(r, logical_processors),
{
    let per_core = logical_processors;
    let maximum = 2 * logical_processors;
    let options = vec![
        (TweakOption::Option(String::from_str("Default")), vec![
            RegistryModification { path: "HKEY_LOCAL_MACHINE\\SYSTEM\\CurrentControlSet\\Control\\Session Manager\\Executive", key: "AdditionalCriticalWorkerThreads", value: RegistryKeyValue::Dword(0) },
            RegistryModification { path: "HKEY_LOCAL_MACHINE\\SYSTEM\\CurrentControlSet\\Control\\Session Manager\\Executive", key: "AdditionalDelayedWorkerThreads", value: RegistryKeyValue::Dword(0) },
        ]),
        (TweakOption::Option(String::from_str("Per Core")), vec![
            RegistryModification { path: "HKEY_LOCAL_MACHINE\\SYSTEM\\CurrentControlSet\\Control\\Session Manager\\Executive", key: "AdditionalCriticalWorkerThreads", value: RegistryKeyValue::Dword(per_core) },
            RegistryModification { path: "HKEY_LOCAL_MACHINE\\SYSTEM\\CurrentControlSet\\Control\\Session Manager\\Executive", key: "AdditionalDelayedWorkerThreads", value: RegistryKeyValue::Dword(per_core) },
        ]),
        (TweakOption::Option(String::from_str("Maximum")), vec![
            RegistryModification { path: "HKEY_LOCAL_MACHINE\\SYSTEM\\CurrentControlSet\\Control\\Session Manager\\Executive", key: "AdditionalCriticalWorkerThreads", value: RegistryKeyValue::Dword(maximum) },
            RegistryModification { path: "HKEY_LOCAL_MACHINE\\SYSTEM\\CurrentControlSet\\Control\\Session Manager\\Executive", key: "AdditionalDelayedWorkerThreads", value: RegistryKeyValue::Dword(maximum) },
        ]),
    ];
    proof {
        reveal_strlit("Default");
        reveal_strlit("Per Core");
        reveal_strlit("Maximum");
        assert("Default"@.len() == 7);
        assert("Per Core"@.len() == 8);
        assert("Maximum"@.len() == 7);
        assert("Default"@[0] != "Maximum"@[0]);
        assert(options@[0].0@ == OptionView::Choice("Default"@));
        assert(options@[1].0@ == OptionView::Choice("Per Core"@));
        assert(options@[2].0@ == OptionView::Choice("Maximum"@));
        assert forall|i: int, j: int| 0 <= i < j < options@.len() implies options@[i].0@ != options@[j].0@ by {
            if i == 0 && j == 1 {} else if i == 0 && j == 2 {} else {}
        }
        lemma_indexed_from_identity(options@);
        assert(table_view(options@) =~~= additional_kernel_worker_threads_table(logical_processors));
        assert(entry_keys(options@) =~= seq![OptionView::Choice("Default"@), OptionView::Choice("Per Core"@), OptionView::Choice("Maximum"@)]);
    }
    let r = Tweak::registry_tweak(
        "Kernel Worker Threads",
        ADDITIONAL_KERNEL_WORKER_THREADS_DESCRIPTION,
        TweakCategory::Kernel,
        RegistryTweak { id: TweakId::AdditionalKernelWorkerThreads, options: registry_options_from(options) },
        true,
    );
    proof {
        reveal(is_additional_kernel_worker_threads);
    }
    r
}

/// The description of the "Alchemy Kernel Tweak" tweak.
pub const ALCHEMY_KERNEL_TWEAK_DESCRIPTION: &'static str = "This tweak applies a variety of kernel settings to improve system responsiveness and performance.";

/// The option table of the "Alchemy Kernel Tweak" tweak: each option with the registry
/// values it writes, in order.
pub open spec fn alchemy_kernel_tweak_table() -> Seq<(OptionView, Seq<ModificationView>)> {
    seq![
        (OptionView::Enabled(false), seq![
            delete_value("HKEY_LOCAL_MACHINE\\SYSTEM\\CurrentControlSet\\Control\\Session Manager\\kernel", "MaxDynamicTickDuration"),
            delete_value("HKEY_LOCAL_MACHINE\\SYSTEM\\CurrentControlSet\\Control\\Session Manager\\kernel", "MaximumSharedReadyQueueSize"),
            delete_value("HKEY_LOCAL_MACHINE\\SYSTEM\\CurrentControlSet\\Control\\Session Manager\\kernel", "BufferSize"),
            delete_value("HKEY_LOCAL_MACHINE\\SYSTEM\\CurrentControlSet\\Control\\Session Manager\\kernel", "IoQueueWorkItem"),
            delete_value("HKEY_LOCAL_MACHINE\\SYSTEM\\CurrentControlSet\\Control\\Session Manager\\kernel", "IoQueueWorkItemToNode"),
            delete_value("HKEY_LOCAL_MACHINE\\SYSTEM\\CurrentControlSet\\Control\\Session Manager\\kernel", "IoQueueWorkItemEx"),
            delete_value("HKEY_LOCAL_MACHINE\\SYSTEM\\CurrentControlSet\\Control\\Session Manager\\kernel", "IoQueueThreadIrp"),
            delete_value("HKEY_LOCAL_MACHINE\\SYSTEM\\CurrentControlSet\\Control\\Session Manager\\kernel", "ExTryQueueWorkItem"),
            delete_value("HKEY_LOCAL_MACHINE\\SYSTEM\\CurrentControlSet\\Control\\Session Manager\\kernel", "ExQueueWorkItem"),
            delete_value("HKEY_LOCAL_MACHINE\\SYSTEM\\CurrentControlSet\\Control\\Session Manager\\kernel", "IoEnqueueIrp"),
            delete_value("HKEY_LOCAL_MACHINE\\SYSTEM\\CurrentControlSet\\Control\\Session Manager\\kernel", "XMMIZeroingEnable"),
            delete_value("HKEY_LOCAL_MACHINE\\SYSTEM\\CurrentControlSet\\Control\\Session Manager\\kernel", "UseNormalStack"),
            delete_value("HKEY_LOCAL_MACHINE\\SYSTEM\\CurrentControlSet\\Control\\Session Manager\\kernel", "UseNewEaBuffering"),
            delete_value("HKEY_LOCAL_MACHINE\\SYSTEM\\CurrentControlSet\\Control\\Session Manager\\kernel", "StackSubSystemStackSize"),
        ]),
        (OptionView::Enabled(true), seq![
            set_dword("HKEY_LOCAL_MACHINE\\SYSTEM\\CurrentControlSet\\Control\\Session Manager\\kernel", "MaxDynamicTickDuration", 10),
            set_dword("HKEY_LOCAL_MACHINE\\SYSTEM\\CurrentControlSet\\Control\\Session Manager\\kernel", "MaximumSharedReadyQueueSize", 128),
            set_dword("HKEY_LOCAL_MACHINE\\SYSTEM\\CurrentControlSet\\Control\\Session Manager\\kernel", "BufferSize", 32),
            set_dword("HKEY_LOCAL_MACHINE\\SYSTEM\\CurrentControlSet\\Control\\Session Manager\\kernel", "IoQueueWorkItem", 32),
            set_dword("HKEY_LOCAL_MACHINE\\SYSTEM\\CurrentControlSet\\Control\\Session Manager\\kernel", "IoQueueWorkItemToNode", 32),
            set_dword("HKEY_LOCAL_MACHINE\\SYSTEM\\CurrentControlSet\\Control\\Session Manager\\kernel", "IoQueueWorkItemEx", 32),
            set_dword("HKEY_LOCAL_MACHINE\\SYSTEM\\CurrentControlSet\\Control\\Session Manager\\kernel", "IoQueueThreadIrp", 32),
            set_dword("HKEY_LOCAL_MACHINE\\SYSTEM\\CurrentControlSet\\Control\\Session Manager\\kernel", "ExTryQueueWorkItem", 32),
            set_dword("HKEY_LOCAL_MACHINE\\SYSTEM\\CurrentControlSet\\Control\\Session Manager\\kernel", "ExQueueWorkItem", 32),
            set_dword("HKEY_LOCAL_MACHINE\\SYSTEM\\CurrentControlSet\\Control\\Session Manager\\kernel", "IoEnqueueIrp", 32),
            set_dword("HKEY_LOCAL_MACHINE\\SYSTEM\\CurrentControlSet\\Control\\Session Manager\\kernel", "XMMIZeroingEnable", 0),
            set_dword("HKEY_LOCAL_MACHINE\\SYSTEM\\CurrentControlSet\\Control\\Session Manager\\kernel", "UseNormalStack", 1),
            set_dword("HKEY_LOCAL_MACHINE\\SYSTEM\\CurrentControlSet\\Control\\Session Manager\\kernel", "UseNewEaBuffering", 1),
            set_dword("HKEY_LOCAL_MACHINE\\SYSTEM\\CurrentControlSet\\Control\\Session Manager\\kernel", "StackSubSystemStackSize", 65536),
        ]),
    ]
}

/// The "Alchemy Kernel Tweak" tweak as `alchemy_kernel_tweak` builds it.
#[verifier::opaque]
pub open spec fn is_alchemy_kernel_tweak(t: Tweak) -> bool {
    &&& fresh_tweak(t, "Alchemy Kernel Tweak", ALCHEMY_KERNEL_TWEAK_DESCRIPTION@, TweakCategory::Kernel, true)
    &&& keyed_tweak(t, seq![OptionView::Enabled(false), OptionView::Enabled(true)])
    &&& registry_table(t, TweakId::AlchemyKernelTweak, alchemy_kernel_tweak_table())
}

/// Builds the "Alchemy Kernel Tweak" tweak.
pub fn alchemy_kernel_tweak() -> (r: Tweak)
    ensures
        is_alchemy_kernel_tweak(r),
{
    let options = vec![
        (TweakOption::Enabled(false), vec![
            RegistryModification { path: "HKEY_LOCAL_MACHINE\\SYSTEM\\CurrentControlSet\\Control\\Session Manager\\kernel", key: "MaxDynamicTickDuration", value: RegistryKeyValue::Deleted },
            RegistryModification { path: "HKEY_LOCAL_MACHINE\\SYSTEM\\CurrentControlSet\\Control\\Session Manager\\kernel", key: "MaximumSharedReadyQueueSize", value: RegistryKeyValue::Deleted },
            RegistryModification { path: "HKEY_LOCAL_MACHINE\\SYSTEM\\CurrentControlSet\\Control\\Session Manager\\kernel", key: "BufferSize", value: RegistryKeyValue::Deleted },
            RegistryModification { path: "HKEY_LOCAL_MACHINE\\SYSTEM\\CurrentControlSet\\Control\\Session Manager\\kernel", key: "IoQueueWorkItem", value: RegistryKeyValue::Deleted },
            RegistryModification { path: "HKEY_LOCAL_MACHINE\\SYSTEM\\CurrentControlSet\\Control\\Session Manager\\kernel", key: "IoQueueWorkItemToNode", value: RegistryKeyValue::Deleted },
            RegistryModification { path: "HKEY_LOCAL_MACHINE\\SYSTEM\\CurrentControlSet\\Control\\Session Manager\\kernel", key: "IoQueueWorkItemEx", value: RegistryKeyValue::Deleted },
            RegistryModification { path: "HKEY_LOCAL_MACHINE\\SYSTEM\\CurrentControlSet\\Control\\Session Manager\\kernel", key: "IoQueueThreadIrp", value: RegistryKeyValue::Deleted },
            RegistryModification { path: "HKEY_LOCAL_MACHINE\\SYSTEM\\CurrentControlSet\\Control\\Session Manager\\kernel", key: "ExTryQueueWorkItem", value: RegistryKeyValue::Deleted },
            RegistryModification { path: "HKEY_LOCAL_MACHINE\\SYSTEM\\CurrentControlSet\\Control\\Session Manager\\kernel", key: "ExQueueWorkItem", value: RegistryKeyValue::Deleted },
            RegistryModification { path: "HKEY_LOCAL_MACHINE\\SYSTEM\\CurrentControlSet\\Control\\Session Manager\\kernel", key: "IoEnqueueIrp", value: RegistryKeyValue::Deleted },
            RegistryModification { path: "HKEY_LOCAL_MACHINE\\SYSTEM\\CurrentControlSet\\Control\\Session Manager\\kernel", key: "XMMIZeroingEnable", value: RegistryKeyValue::Deleted },
            RegistryModification { path: "HKEY_LOCAL_MACHINE\\SYSTEM\\CurrentControlSet\\Control\\Session Manager\\kernel", key: "UseNormalStack", value: RegistryKeyValue::Deleted },
            RegistryModification { path: "HKEY_LOCAL_MACHINE\\SYSTEM\\CurrentControlSet\\Control\\Session Manager\\kernel", key: "UseNewEaBuffering", value: RegistryKeyValue::Deleted },
            RegistryModification { path: "HKEY_LOCAL_MACHINE\\SYSTEM\\CurrentControlSet\\Control\\Session Manager\\kernel", key: "StackSubSystemStackSize", value: RegistryKeyValue::Deleted },
        ]),
        (TweakOption::Enabled(true), vec![
            RegistryModification { path: "HKEY_LOCAL_MACHINE\\SYSTEM\\CurrentControlSet\\Control\\Session Manager\\kernel", key: "MaxDynamicTickDuration", value: RegistryKeyValue::Dword(10) },
            RegistryModification { path: "HKEY_LOCAL_MACHINE\\SYSTEM\\CurrentControlSet\\Control\\Session Manager\\kernel", key: "MaximumSharedReadyQueueSize", value: RegistryKeyValue::Dword(128) },
            RegistryModification { path: "HKEY_LOCAL_MACHINE\\SYSTEM\\CurrentControlSet\\Control\\Session Manager\\kernel", key: "BufferSize", value: RegistryKeyValue::Dword(32) },
            RegistryModification { path: "HKEY_LOCAL_MACHINE\\SYSTEM\\CurrentControlSet\\Control\\Session Manager\\kernel", key: "IoQueueWorkItem", value: RegistryKeyValue::Dword(32) },
            RegistryModification { path: "HKEY_LOCAL_MACHINE\\SYSTEM\\CurrentControlSet\\Control\\Session Manager\\kernel", key: "IoQueueWorkItemToNode", value: RegistryKeyValue::Dword(32) },
            RegistryModification { path: "HKEY_LOCAL_MACHINE\\SYSTEM\\CurrentControlSet\\Control\\Session Manager\\kernel", key: "IoQueueWorkItemEx", value: RegistryKeyValue::Dword(32) },
            RegistryModification { path: "HKEY_LOCAL_MACHINE\\SYSTEM\\CurrentControlSet\\Control\\Session Manager\\kernel", key: "IoQueueThreadIrp", value: RegistryKeyValue::Dword(32) },
            RegistryModification { path: "HKEY_LOCAL_MACHINE\\SYSTEM\\CurrentControlSet\\Control\\Session Manager\\kernel", key: "ExTryQueueWorkItem", value: RegistryKeyValue::Dword(32) },
            RegistryModification { path: "HKEY_LOCAL_MACHINE\\SYSTEM\\CurrentControlSet\\Control\\Session Manager\\kernel", key: "ExQueueWorkItem", value: RegistryKeyValue::Dword(32) },
            RegistryModification { path: "HKEY_LOCAL_MACHINE\\SYSTEM\\CurrentControlSet\\Control\\Session Manager\\kernel", key: "IoEnqueueIrp", value: RegistryKeyValue::Dword(32) },
            RegistryModification { path: "HKEY_LOCAL_MACHINE\\SYSTEM\\CurrentControlSet\\Control\\Session Manager\\kernel", key: "XMMIZeroingEnable", value: RegistryKeyValue::Dword(0) },
            RegistryModification { path: "HKEY_LOCAL_MACHINE\\SYSTEM\\CurrentControlSet\\Control\\Session Manager\\kernel", key: "UseNormalStack", value: RegistryKeyValue::Dword(1) },
            RegistryModification { path: "HKEY_LOCAL_MACHINE\\SYSTEM\\CurrentControlSet\\Control\\Session Manager\\kernel", key: "UseNewEaBuffering", value: RegistryKeyValue::Dword(1) },
            RegistryModification { path: "HKEY_LOCAL_MACHINE\\SYSTEM\\CurrentControlSet\\Control\\Session Manager\\kernel", key: "StackSubSystemStackSize", value: RegistryKeyValue::Dword(65536) },
        ]),
    ];
    proof {
        lemma_indexed_from_identity(options@);
        assert(table_view(options@) =~~= alchemy_kernel_tweak_table());
        assert(entry_keys(options@) =~= seq![OptionView::Enabled(false), OptionView::Enabled(true)]);
    }
    let r = Tweak::registry_tweak(
        "Alchemy Kernel Tweak",
        ALCHEMY_KERNEL_TWEAK_DESCRIPTION,
        TweakCategory::Kernel,
        RegistryTweak { id: TweakId::AlchemyKernelTweak, options: registry_options_from(options) },
        true,
    );
    proof {
        reveal(is_alchemy_kernel_tweak);
    }
    r
}

} // verus!
