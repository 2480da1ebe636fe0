//! The registry tweaks: each is a table of options, and each option a list
//! of registry values to write.
pub mod kernel;
pub mod method;
pub mod path;
pub mod value;

use vstd::prelude::*;
use vstd::string::StringExecFns;
use crate::indexed::{
    entry_keys, lemma_indexed_from_identity,
    registry_options_from,
};
use crate::tweaks::{
    fresh_tweak, keyed_tweak, registry_table, OptionView, Tweak, TweakCategory, TweakId,
    TweakOption,
};
use crate::tweaks::catalog::{push_registry, registry_listed_tweak};
use crate::tweaks::table::table_ids;
use kernel::{additional_kernel_worker_threads, alchemy_kernel_tweak, thread_dpc_disable};
use method::{
    delete_value, set_binary, set_dword, table_view, ModificationView, RegistryKeyValue,
    RegistryModification, RegistryTweak,
};

verus! {

/// The description of the "Large System Cache" tweak.
pub const ENABLE_LARGE_SYSTEM_CACHE_DESCRIPTION: &'static str = "Controls the system's memory management strategy between desktop/application optimization or server/system service optimization. When enabled (1), the system maintains more data in RAM by aggressively caching file system data and delaying write operations, favoring system services and background tasks. When disabled (0), the system reduces RAM usage for file caching to prioritize foreground application responsiveness. Typically beneficial to enable on systems with large RAM (>1GB) running server workloads or data-intensive background tasks, while desktop systems usually perform better with this disabled.";

/// The option table of the "Large System Cache" tweak: each option with the registry
/// values it writes, in order.
pub open spec fn enable_large_system_cache_table() -> Seq<(OptionView, Seq<ModificationView>)> {
    seq![
        (OptionView::Enabled(false), seq![
            set_dword("HKEY_LOCAL_MACHINE\\SYSTEM\\CurrentControlSet\\Control\\Session Manager\\Memory Management", "LargeSystemCache", 0),
        ]),
        (OptionView::Enabled(true), seq![
            set_dword("HKEY_LOCAL_MACHINE\\SYSTEM\\CurrentControlSet\\Control\\Session Manager\\Memory Management", "LargeSystemCache", 1),
        ]),
    ]
}

/// The "Large System Cache" tweak as `enable_large_system_cache` builds it.
#[verifier::opaque]
pub open spec fn is_enable_large_system_cache(t: Tweak) -> bool {
    &&& fresh_tweak(t, "Large System Cache", ENABLE_LARGE_SYSTEM_CACHE_DESCRIPTION@, TweakCategory::Memory, true)
    &&& keyed_tweak(t, seq![OptionView::Enabled(false), OptionView::Enabled(true)])
    &&& registry_table(t, TweakId::LargeSystemCache, enable_large_system_cache_table())
}

/// Builds the "Large System Cache" tweak.
pub fn enable_large_system_cache() -> (r: Tweak)
    ensures
        is_enable_large_system_cache(r),
{
    let options = vec![
        (TweakOption::Enabled(false), vec![
            RegistryModification { path: "HKEY_LOCAL_MACHINE\\SYSTEM\\CurrentControlSet\\Control\\Session Manager\\Memory Management", key: "LargeSystemCache", value: RegistryKeyValue::Dword(0) },
        ]),
        (TweakOption::Enabled(true), vec![
            RegistryModification { path: "HKEY_LOCAL_MACHINE\\SYSTEM\\CurrentControlSet\\Control\\Session Manager\\Memory Management", key: "LargeSystemCache", value: RegistryKeyValue::Dword(1) },
        ]),
    ];
    proof {
        lemma_indexed_from_identity(options@);
        assert(table_view(options@) =~~= enable_large_system_cache_table());
        assert(entry_keys(options@) =~= seq![OptionView::Enabled(false), OptionView::Enabled(true)]);
    }
    let r = Tweak::registry_tweak(
        "Large System Cache",
        ENABLE_LARGE_SYSTEM_CACHE_DESCRIPTION,
        TweakCategory::Memory,
        RegistryTweak { id: TweakId::LargeSystemCache, options: registry_options_from(options) },
        true,
    );
    proof {
        reveal(is_enable_large_system_cache);
    }
    r
}

/// The description of the "System Responsiveness" tweak.
pub const SYSTEM_RESPONSIVENESS_DESCRIPTION: &'static str = "Controls CPU time allocation between foreground applications and background processes. Values represent the percentage of CPU time reserved for background tasks:\n\n• 0% (Disabled): Maximum foreground priority. Provides highest responsiveness for active applications and games, but may cause stuttering in background operations like downloads or updates.\n• 20% (Default): Windows' balanced setting. Reserves one-fifth of CPU time for background tasks while maintaining good foreground responsiveness.\n• 100%: Equal priority for all processes. Ensures smooth background operations but may impact foreground application performance.";

/// The option table of the "System Responsiveness" tweak: each option with the registry
/// values it writes, in order.
pub open spec fn system_responsiveness_table() -> Seq<(OptionView, Seq<ModificationView>)> {
    seq![
        (OptionView::Choice("Default"@), seq![
            set_dword("HKEY_LOCAL_MACHINE\\SOFTWARE\\Microsoft\\Windows NT\\CurrentVersion\\Multimedia\\SystemProfile", "SystemResponsiveness", 20),
        ]),
        (OptionView::Choice("0"@), seq![
            set_dword("HKEY_LOCAL_MACHINE\\SOFTWARE\\Microsoft\\Windows NT\\CurrentVersion\\Multimedia\\SystemProfile", "SystemResponsiveness", 0),
        ]),
        (OptionView::Choice("100"@), seq![
            set_dword("HKEY_LOCAL_MACHINE\\SOFTWARE\\Microsoft\\Windows NT\\CurrentVersion\\Multimedia\\SystemProfile", "SystemResponsiveness", 100),
        ]),
    ]
}

/// The "System Responsiveness" tweak as `system_responsiveness` builds it.
#[verifier::opaque]
pub open spec fn is_system_responsiveness(t: Tweak) -> bool {
    &&& fresh_tweak(t, "System Responsiveness", SYSTEM_RESPONSIVENESS_DESCRIPTION@, TweakCategory::System, true)
    &&& keyed_tweak(t, seq![OptionView::Choice("Default"@), OptionView::Choice("0"@), OptionView::Choice("100"@)])
    &&& registry_table(t, TweakId::SystemResponsiveness, system_responsiveness_table())
}

/// Builds the "System Responsiveness" tweak.
pub fn system_responsiveness() -> (r: Tweak)
    ensures
        is_system_responsiveness(r),
{
    let options = vec![
        (TweakOption::Option(String::from_str("Default")), vec![
            RegistryModification { path: "HKEY_LOCAL_MACHINE\\SOFTWARE\\Microsoft\\Windows NT\\CurrentVersion\\Multimedia\\SystemProfile", key: "SystemResponsiveness", value: RegistryKeyValue::Dword(20) },
        ]),
        (TweakOption::Option(String::from_str("0")), vec![
            RegistryModification { path: "HKEY_LOCAL_MACHINE\\SOFTWARE\\Microsoft\\Windows NT\\CurrentVersion\\Multimedia\\SystemProfile", key: "SystemResponsiveness", value: RegistryKeyValue::Dword(0) },
        ]),
        (TweakOption::Option(String::from_str("100")), vec![
            RegistryModification { path: "HKEY_LOCAL_MACHINE\\SOFTWARE\\Microsoft\\Windows NT\\CurrentVersion\\Multimedia\\SystemProfile", key: "SystemResponsiveness", value: RegistryKeyValue::Dword(100) },
        ]),
    ];
    proof {
        reveal_strlit("Default");
        reveal_strlit("0");
        reveal_strlit("100");
        assert("Default"@.len() == 7);
        assert("0"@.len() == 1);
        assert("100"@.len() == 3);
        assert(options@[0].0@ == OptionView::Choice("Default"@));
        assert(options@[1].0@ == OptionView::Choice("0"@));
        assert(options@[2].0@ == OptionView::Choice("100"@));
        assert forall|i: int, j: int| 0 <= i < j < options@.len() implies options@[i].0@ != options@[j].0@ by {
            if i == 0 && j == 1 {} else if i == 0 && j == 2 {} else {}
        }
        lemma_indexed_from_identity(options@);
        assert(table_view(options@) =~~= system_responsiveness_table());
        assert(entry_keys(options@) =~= seq![OptionView::Choice("Default"@), OptionView::Choice("0"@), OptionView::Choice("100"@)]);
    }
    let r = Tweak::registry_tweak(
        "System Responsiveness",
        SYSTEM_RESPONSIVENESS_DESCRIPTION,
        TweakCategory::System,
        RegistryTweak { id: TweakId::SystemResponsiveness, options: registry_options_from(options) },
        true,
    );
    proof {
        reveal(is_system_responsiveness);
    }
    r
}

/// The description of the "Hardware Acceleration" tweak.
pub const DISABLE_HW_ACCELERATION_DESCRIPTION: &'static str = "Controls Windows' DirectX-based hardware acceleration for the Windows Presentation Foundation (WPF) graphics system. When enabled, graphics operations are offloaded to the GPU for better performance.";

/// The option table of the "Hardware Acceleration" tweak: each option with the registry
/// values it writes, in order.
pub open spec fn disable_hw_acceleration_table() -> Seq<(OptionView, Seq<ModificationView>)> {
    seq![
        (OptionView::Enabled(false), seq![
            set_dword("HKEY_CURRENT_USER\\SOFTWARE\\Microsoft\\Avalon.Graphics", "DisableHWAcceleration", 0),
        ]),
        (OptionView::Enabled(true), seq![
            set_dword("HKEY_CURRENT_USER\\SOFTWARE\\Microsoft\\Avalon.Graphics", "DisableHWAcceleration", 1),
        ]),
    ]
}

/// The "Hardware Acceleration" tweak as `disable_hw_acceleration` builds it.
#[verifier::opaque]
pub open spec fn is_disable_hw_acceleration(t: Tweak) -> bool {
    &&& fresh_tweak(t, "Hardware Acceleration", DISABLE_HW_ACCELERATION_DESCRIPTION@, TweakCategory::Graphics, false)
    &&& keyed_tweak(t, seq![OptionView::Enabled(false), OptionView::Enabled(true)])
    &&& registry_table(t, TweakId::DisableHWAcceleration, disable_hw_acceleration_table())
}

/// Builds the "Hardware Acceleration" tweak.
pub fn disable_hw_acceleration() -> (r: Tweak)
    ensures
        is_disable_hw_acceleration(r),
{
    let options = vec![
        (TweakOption::Enabled(false), vec![
            RegistryModification { path: "HKEY_CURRENT_USER\\SOFTWARE\\Microsoft\\Avalon.Graphics", key: "DisableHWAcceleration", value: RegistryKeyValue::Dword(0) },
        ]),
        (TweakOption::Enabled(true), vec![
            RegistryModification { path: "HKEY_CURRENT_USER\\SOFTWARE\\Microsoft\\Avalon.Graphics", key: "DisableHWAcceleration", value: RegistryKeyValue::Dword(1) },
        ]),
    ];
    proof {
        lemma_indexed_from_identity(options@);
        assert(table_view(options@) =~~= disable_hw_acceleration_table());
        assert(entry_keys(options@) =~= seq![OptionView::Enabled(false), OptionView::Enabled(true)]);
    }
    let r = Tweak::registry_tweak(
        "Hardware Acceleration",
        DISABLE_HW_ACCELERATION_DESCRIPTION,
        TweakCategory::Graphics,
        RegistryTweak { id: TweakId::DisableHWAcceleration, options: registry_options_from(options) },
        false,
    );
    proof {
        reveal(is_disable_hw_acceleration);
    }
    r
}

/// The description of the "Win32 Priority Separation" tweak.
pub const WIN32_PRIORITY_SEPARATION_DESCRIPTION: &'static str = "Controls how Windows balances processor time between foreground and background processes. The value is a combination of three settings:\n\n• 2A = Short, Fixed, High foreground boost.\n• 29 = Short, Fixed, Medium foreground boost.\n• 28 = Short, Fixed, No foreground boost.\n\n• 26 = Short, Variable , High foreground boost.\n• 25 = Short, Variable , Medium foreground boost.\n• 24 = Short, Variable , No foreground boost.\n\n• 1A = Long, Fixed, High foreground boost.\n• 19 = Long, Fixed, Medium foreground boost.\n• 18 = Long, Fixed, No foreground boost.\n\n• 16 = Long, Variable, High foreground boost.\n• 15 = Long, Variable, Medium foreground boost.\n• 14 = Long, Variable, No foreground boost.";

/// The option table of the "Win32 Priority Separation" tweak: each option with the registry
/// values it writes, in order.
pub open spec fn win32_priority_separation_table() -> Seq<(OptionView, Seq<ModificationView>)> {
    seq![
        (OptionView::Choice("Default"@), seq![
            set_dword("HKEY_LOCAL_MACHINE\\SYSTEM\\ControlSet001\\Control\\PriorityControl", "Win32PrioritySeparation", 2),
        ]),
        (OptionView::Choice("2A"@), seq![
            set_dword("HKEY_LOCAL_MACHINE\\SYSTEM\\ControlSet001\\Control\\PriorityControl", "Win32PrioritySeparation", 42),
        ]),
        (OptionView::Choice("29"@), seq![
            set_dword("HKEY_LOCAL_MACHINE\\SYSTEM\\ControlSet001\\Control\\PriorityControl", "Win32PrioritySeparation", 41),
        ]),
        (OptionView::Choice("28"@), seq![
            set_dword("HKEY_LOCAL_MACHINE\\SYSTEM\\ControlSet001\\Control\\PriorityControl", "Win32PrioritySeparation", 40),
        ]),
        (OptionView::Choice("26"@), seq![
            set_dword("HKEY_LOCAL_MACHINE\\SYSTEM\\ControlSet001\\Control\\PriorityControl", "Win32PrioritySeparation", 38),
        ]),
        (OptionView::Choice("25"@), seq![
            set_dword("HKEY_LOCAL_MACHINE\\SYSTEM\\ControlSet001\\Control\\PriorityControl", "Win32PrioritySeparation", 37),
        ]),
        (OptionView::Choice("24"@), seq![
            set_dword("HKEY_LOCAL_MACHINE\\SYSTEM\\ControlSet001\\Control\\PriorityControl", "Win32PrioritySeparation", 36),
        ]),
        (OptionView::Choice("1A"@), seq![
            set_dword("HKEY_LOCAL_MACHINE\\SYSTEM\\ControlSet001\\Control\\PriorityControl", "Win32PrioritySeparation", 26),
        ]),
        (OptionView::Choice("19"@), seq![
            set_dword("HKEY_LOCAL_MACHINE\\SYSTEM\\ControlSet001\\Control\\PriorityControl", "Win32PrioritySeparation", 25),
        ]),
        (OptionView::Choice("18"@), seq![
            set_dword("HKEY_LOCAL_MACHINE\\SYSTEM\\ControlSet001\\Control\\PriorityControl", "Win32PrioritySeparation", 24),
        ]),
        (OptionView::Choice("16"@), seq![
            set_dword("HKEY_LOCAL_MACHINE\\SYSTEM\\ControlSet001\\Control\\PriorityControl", "Win32PrioritySeparation", 22),
        ]),
        (OptionView::Choice("15"@), seq![
            set_dword("HKEY_LOCAL_MACHINE\\SYSTEM\\ControlSet001\\Control\\PriorityControl", "Win32PrioritySeparation", 21),
        ]),
        (OptionView::Choice("14"@), seq![
            set_dword("HKEY_LOCAL_MACHINE\\SYSTEM\\ControlSet001\\Control\\PriorityControl", "Win32PrioritySeparation", 20),
        ]),
    ]
}

/// The "Win32 Priority Separation" tweak as `win32_priority_separation` builds it.
#[verifier::opaque]
pub open spec fn is_win32_priority_separation(t: Tweak) -> bool {
    &&& fresh_tweak(t, "Win32 Priority Separation", WIN32_PRIORITY_SEPARATION_DESCRIPTION@, TweakCategory::System, false)
    &&& keyed_tweak(t, seq![OptionView::Choice("Default"@), OptionView::Choice("2A"@), OptionView::Choice("29"@), OptionView::Choice("28"@), OptionView::Choice("26"@), OptionView::Choice("25"@), OptionView::Choice("24"@), OptionView::Choice("1A"@), OptionView::Choice("19"@), OptionView::Choice("18"@), OptionView::Choice("16"@), OptionView::Choice("15"@), OptionView::Choice("14"@)])
    &&& registry_table(t, TweakId::Win32PrioritySeparation, win32_priority_separation_table())
}

/// Builds the "Win32 Priority Separation" tweak.
pub fn win32_priority_separation() -> (r: Tweak)
    ensures
        is_win32_priority_separation(r),
{
    let options = vec![
        (TweakOption::Option(String::from_str("Default")), vec![
            RegistryModification { path: "HKEY_LOCAL_MACHINE\\SYSTEM\\ControlSet001\\Control\\PriorityControl", key: "Win32PrioritySeparation", value: RegistryKeyValue::Dword(2) },
        ]),
        (TweakOption::Option(String::from_str("2A")), vec![
            RegistryModification { path: "HKEY_LOCAL_MACHINE\\SYSTEM\\ControlSet001\\Control\\PriorityControl", key: "Win32PrioritySeparation", value: RegistryKeyValue::Dword(42) },
        ]),
        (TweakOption::Option(String::from_str("29")), vec![
            RegistryModification { path: "HKEY_LOCAL_MACHINE\\SYSTEM\\ControlSet001\\Control\\PriorityControl", key: "Win32PrioritySeparation", value: RegistryKeyValue::Dword(41) },
        ]),
        (TweakOption::Option(String::from_str("28")), vec![
            RegistryModification { path: "HKEY_LOCAL_MACHINE\\SYSTEM\\ControlSet001\\Control\\PriorityControl", key: "Win32PrioritySeparation", value: RegistryKeyValue::Dword(40) },
        ]),
        (TweakOption::Option(String::from_str("26")), vec![
            RegistryModification { path: "HKEY_LOCAL_MACHINE\\SYSTEM\\ControlSet001\\Control\\PriorityControl", key: "Win32PrioritySeparation", value: RegistryKeyValue::Dword(38) },
        ]),
        (TweakOption::Option(String::from_str("25")), vec![
            RegistryModification { path: "HKEY_LOCAL_MACHINE\\SYSTEM\\ControlSet001\\Control\\PriorityControl", key: "Win32PrioritySeparation", value: RegistryKeyValue::Dword(37) },
        ]),
        (TweakOption::Option(String::from_str("24")), vec![
            RegistryModification { path: "HKEY_LOCAL_MACHINE\\SYSTEM\\ControlSet001\\Control\\PriorityControl", key: "Win32PrioritySeparation", value: RegistryKeyValue::Dword(36) },
        ]),
        (TweakOption::Option(String::from_str("1A")), vec![
            RegistryModification { path: "HKEY_LOCAL_MACHINE\\SYSTEM\\ControlSet001\\Control\\PriorityControl", key: "Win32PrioritySeparation", value: RegistryKeyValue::Dword(26) },
        ]),
        (TweakOption::Option(String::from_str("19")), vec![
            RegistryModification { path: "HKEY_LOCAL_MACHINE\\SYSTEM\\ControlSet001\\Control\\PriorityControl", key: "Win32PrioritySeparation", value: RegistryKeyValue::Dword(25) },
        ]),
        (TweakOption::Option(String::from_str("18")), vec![
            RegistryModification { path: "HKEY_LOCAL_MACHINE\\SYSTEM\\ControlSet001\\Control\\PriorityControl", key: "Win32PrioritySeparation", value: RegistryKeyValue::Dword(24) },
        ]),
        (TweakOption::Option(String::from_str("16")), vec![
            RegistryModification { path: "HKEY_LOCAL_MACHINE\\SYSTEM\\ControlSet001\\Control\\PriorityControl", key: "Win32PrioritySeparation", value: RegistryKeyValue::Dword(22) },
        ]),
        (TweakOption::Option(String::from_str("15")), vec![
            RegistryModification { path: "HKEY_LOCAL_MACHINE\\SYSTEM\\ControlSet001\\Control\\PriorityControl", key: "Win32PrioritySeparation", value: RegistryKeyValue::Dword(21) },
        ]),
        (TweakOption::Option(String::from_str("14")), vec![
            RegistryModification { path: "HKEY_LOCAL_MACHINE\\SYSTEM\\ControlSet001\\Control\\PriorityControl", key: "Win32PrioritySeparation", value: RegistryKeyValue::Dword(20) },
        ]),
    ];
    proof {
        reveal_strlit("Default");
        reveal_strlit("2A");
        reveal_strlit("29");
        reveal_strlit("28");
        reveal_strlit("26");
        reveal_strlit("25");
        reveal_strlit("24");
        reveal_strlit("1A");
        reveal_strlit("19");
        reveal_strlit("18");
        reveal_strlit("16");
        reveal_strlit("15");
        reveal_strlit("14");
        assert("Default"@.len() == 7);
        assert("2A"@.len() == 2);
        assert("29"@.len() == 2);
        assert("28"@.len() == 2);
        assert("26"@.len() == 2);
        assert("25"@.len() == 2);
        assert("24"@.len() == 2);
        assert("1A"@.len() == 2);
        assert("19"@.len() == 2);
        assert("18"@.len() == 2);
        assert("16"@.len() == 2);
        assert("15"@.len() == 2);
        assert("14"@.len() == 2);
        assert("2A"@[1] != "29"@[1]);
        assert("2A"@[1] != "28"@[1]);
        assert("2A"@[1] != "26"@[1]);
        assert("2A"@[1] != "25"@[1]);
        assert("2A"@[1] != "24"@[1]);
        assert("2A"@[0] != "1A"@[0]);
        assert("2A"@[0] != "19"@[0]);
        assert("2A"@[0] != "18"@[0]);
        assert("2A"@[0] != "16"@[0]);
        assert("2A"@[0] != "15"@[0]);
        assert("2A"@[0] != "14"@[0]);
        assert("29"@[1] != "28"@[1]);
        assert("29"@[1] != "26"@[1]);
        assert("29"@[1] != "25"@[1]);
        assert("29"@[1] != "24"@[1]);
        assert("29"@[0] != "1A"@[0]);
        assert("29"@[0] != "19"@[0]);
        assert("29"@[0] != "18"@[0]);
        assert("29"@[0] != "16"@[0]);
        assert("29"@[0] != "15"@[0]);
        assert("29"@[0] != "14"@[0]);
        assert("28"@[1] != "26"@[1]);
        assert("28"@[1] != "25"@[1]);
        assert("28"@[1] != "24"@[1]);
        assert("28"@[0] != "1A"@[0]);
        assert("28"@[0] != "19"@[0]);
        assert("28"@[0] != "18"@[0]);
        assert("28"@[0] != "16"@[0]);
        assert("28"@[0] != "15"@[0]);
        assert("28"@[0] != "14"@[0]);
        assert("26"@[1] != "25"@[1]);
        assert("26"@[1] != "24"@[1]);
        assert("26"@[0] != "1A"@[0]);
        assert("26"@[0] != "19"@[0]);
        assert("26"@[0] != "18"@[0]);
        assert("26"@[0] != "16"@[0]);
        assert("26"@[0] != "15"@[0]);
        assert("26"@[0] != "14"@[0]);
        assert("25"@[1] != "24"@[1]);
        assert("25"@[0] != "1A"@[0]);
        assert("25"@[0] != "19"@[0]);
        assert("25"@[0] != "18"@[0]);
        assert("25"@[0] != "16"@[0]);
        assert("25"@[0] != "15"@[0]);
        assert("25"@[0] != "14"@[0]);
        assert("24"@[0] != "1A"@[0]);
        assert("24"@[0] != "19"@[0]);
        assert("24"@[0] != "18"@[0]);
        assert("24"@[0] != "16"@[0]);
        assert("24"@[0] != "15"@[0]);
        assert("24"@[0] != "14"@[0]);
        assert("1A"@[1] != "19"@[1]);
        assert("1A"@[1] != "18"@[1]);
        assert("1A"@[1] != "16"@[1]);
        assert("1A"@[1] != "15"@[1]);
        assert("1A"@[1] != "14"@[1]);
        assert("19"@[1] != "18"@[1]);
        assert("19"@[1] != "16"@[1]);
        assert("19"@[1] != "15"@[1]);
        assert("19"@[1] != "14"@[1]);
        assert("18"@[1] != "16"@[1]);
        assert("18"@[1] != "15"@[1]);
        assert("18"@[1] != "14"@[1]);
        assert("16"@[1] != "15"@[1]);
        assert("16"@[1] != "14"@[1]);
        assert("15"@[1] != "14"@[1]);
        assert(options@[0].0@ == OptionView::Choice("Default"@));
        assert(options@[1].0@ == OptionView::Choice("2A"@));
        assert(options@[2].0@ == OptionView::Choice("29"@));
        assert(options@[3].0@ == OptionView::Choice("28"@));
        assert(options@[4].0@ == OptionView::Choice("26"@));
        assert(options@[5].0@ == OptionView::Choice("25"@));
        assert(options@[6].0@ == OptionView::Choice("24"@));
        assert(options@[7].0@ == OptionView::Choice("1A"@));
        assert(options@[8].0@ == OptionView::Choice("19"@));
        assert(options@[9].0@ == OptionView::Choice("18"@));
        assert(options@[10].0@ == OptionView::Choice("16"@));
        assert(options@[11].0@ == OptionView::Choice("15"@));
        assert(options@[12].0@ == OptionView::Choice("14"@));
        assert forall|i: int, j: int| 0 <= i < j < options@.len() implies options@[i].0@ != options@[j].0@ by {
            if i == 0 && j == 1 {} else if i == 0 && j == 2 {} else if i == 0 && j == 3 {} else if i == 0 && j == 4 {} else if i == 0 && j == 5 {} else if i == 0 && j == 6 {} else if i == 0 && j == 7 {} else if i == 0 && j == 8 {} else if i == 0 && j == 9 {} else if i == 0 && j == 10 {} else if i == 0 && j == 11 {} else if i == 0 && j == 12 {} else if i == 1 && j == 2 {} else if i == 1 && j == 3 {} else if i == 1 && j == 4 {} else if i == 1 && j == 5 {} else if i == 1 && j == 6 {} else if i == 1 && j == 7 {} else if i == 1 && j == 8 {} else if i == 1 && j == 9 {} else if i == 1 && j == 10 {} else if i == 1 && j == 11 {} else if i == 1 && j == 12 {} else if i == 2 && j == 3 {} else if i == 2 && j == 4 {} else if i == 2 && j == 5 {} else if i == 2 && j == 6 {} else if i == 2 && j == 7 {} else if i == 2 && j == 8 {} else if i == 2 && j == 9 {} else if i == 2 && j == 10 {} else if i == 2 && j == 11 {} else if i == 2 && j == 12 {} else if i == 3 && j == 4 {} else if i == 3 && j == 5 {} else if i == 3 && j == 6 {} else if i == 3 && j == 7 {} else if i == 3 && j == 8 {} else if i == 3 && j == 9 {} else if i == 3 && j == 10 {} else if i == 3 && j == 11 {} else if i == 3 && j == 12 {} else if i == 4 && j == 5 {} else if i == 4 && j == 6 {} else if i == 4 && j == 7 {} else if i == 4 && j == 8 {} else if i == 4 && j == 9 {} else if i == 4 && j == 10 {} else if i == 4 && j == 11 {} else if i == 4 && j == 12 {} else if i == 5 && j == 6 {} else if i == 5 && j == 7 {} else if i == 5 && j == 8 {} else if i == 5 && j == 9 {} else if i == 5 && j == 10 {} else if i == 5 && j == 11 {} else if i == 5 && j == 12 {} else if i == 6 && j == 7 {} else if i == 6 && j == 8 {} else if i == 6 && j == 9 {} else if i == 6 && j == 10 {} else if i == 6 && j == 11 {} else if i == 6 && j == 12 {} else if i == 7 && j == 8 {} else if i == 7 && j == 9 {} else if i == 7 && j == 10 {} else if i == 7 && j == 11 {} else if i == 7 && j == 12 {} else if i == 8 && j == 9 {} else if i == 8 && j == 10 {} else if i == 8 && j == 11 {} else if i == 8 && j == 12 {} else if i == 9 && j == 10 {} else if i == 9 && j == 11 {} else if i == 9 && j == 12 {} else if i == 10 && j == 11 {} else if i == 10 && j == 12 {} else {}
        }
        lemma_indexed_from_identity(options@);
        assert(table_view(options@) =~~= win32_priority_separation_table());
        assert(entry_keys(options@) =~= seq![OptionView::Choice("Default"@), OptionView::Choice("2A"@), OptionView::Choice("29"@), OptionView::Choice("28"@), OptionView::Choice("26"@), OptionView::Choice("25"@), OptionView::Choice("24"@), OptionView::Choice("1A"@), OptionView::Choice("19"@), OptionView::Choice("18"@), OptionView::Choice("16"@), OptionView::Choice("15"@), OptionView::Choice("14"@)]);
    }
    let r = Tweak::registry_tweak(
        "Win32 Priority Separation",
        WIN32_PRIORITY_SEPARATION_DESCRIPTION,
        TweakCategory::System,
        RegistryTweak { id: TweakId::Win32PrioritySeparation, options: registry_options_from(options) },
        false,
    );
    proof {
        reveal(is_win32_priority_separation);
    }
    r
}

/// The description of the "Core Parking" tweak.
pub const DISABLE_CORE_PARKING_DESCRIPTION: &'static str = "Controls the processor core parking behavior, which allows Windows to suspend inactive CPU cores to save power. The value represents the maximum percentage of cores that can be parked:\n• 0% (Disabled): All cores remain active, providing maximum performance at the cost of higher power consumption\n• 64% (Default): Up to 64% of cores can be parked when idle\nDisabling core parking can reduce latency spikes caused by core wake-up delays, beneficial for gaming and latency-sensitive applications. However, it increases power consumption and heat generation.";

/// The option table of the "Core Parking" tweak: each option with the registry
/// values it writes, in order.
pub open spec fn disable_core_parking_table() -> Seq<(OptionView, Seq<ModificationView>)> {
    seq![
        (OptionView::Enabled(false), seq![
            set_dword("HKEY_LOCAL_MACHINE\\SYSTEM\\ControlSet001\\Control\\Power\\PowerSettings\\54533251-82be-4824-96c1-47b60b740d00\\0cc5b647-c1df-4637-891a-dec35c318583", "ValueMax", 64),
        ]),
        (OptionView::Enabled(true), seq![
            set_dword("HKEY_LOCAL_MACHINE\\SYSTEM\\ControlSet001\\Control\\Power\\PowerSettings\\54533251-82be-4824-96c1-47b60b740d00\\0cc5b647-c1df-4637-891a-dec35c318583", "ValueMax", 0),
        ]),
    ]
}

/// The "Core Parking" tweak as `disable_core_parking` builds it.
#[verifier::opaque]
pub open spec fn is_disable_core_parking(t: Tweak) -> bool {
    &&& fresh_tweak(t, "Core Parking", DISABLE_CORE_PARKING_DESCRIPTION@, TweakCategory::Power, true)
    &&& keyed_tweak(t, seq![OptionView::Enabled(false), OptionView::Enabled(true)])
    &&& registry_table(t, TweakId::DisableCoreParking, disable_core_parking_table())
}

/// Builds the "Core Parking" tweak.
pub fn disable_core_parking() -> (r: Tweak)
    ensures
        is_disable_core_parking(r),
{
    let options = vec![
        (TweakOption::Enabled(false), vec![
            RegistryModification { path: "HKEY_LOCAL_MACHINE\\SYSTEM\\ControlSet001\\Control\\Power\\PowerSettings\\54533251-82be-4824-96c1-47b60b740d00\\0cc5b647-c1df-4637-891a-dec35c318583", key: "ValueMax", value: RegistryKeyValue::Dword(64) },
        ]),
        (TweakOption::Enabled(true), vec![
            RegistryModification { path: "HKEY_LOCAL_MACHINE\\SYSTEM\\ControlSet001\\Control\\Power\\PowerSettings\\54533251-82be-4824-96c1-47b60b740d00\\0cc5b647-c1df-4637-891a-dec35c318583", key: "ValueMax", value: RegistryKeyValue::Dword(0) },
        ]),
    ];
    proof {
        lemma_indexed_from_identity(options@);
        assert(table_view(options@) =~~= disable_core_parking_table());
        assert(entry_keys(options@) =~= seq![OptionView::Enabled(false), OptionView::Enabled(true)]);
    }
    let r = Tweak::registry_tweak(
        "Core Parking",
        DISABLE_CORE_PARKING_DESCRIPTION,
        TweakCategory::Power,
        RegistryTweak { id: TweakId::DisableCoreParking, options: registry_options_from(options) },
        true,
    );
    proof {
        reveal(is_disable_core_parking);
    }
    r
}

/// The description of the "Low Disk Space Checks" tweak.
pub const DISABLE_LOW_DISK_SPACE_CHECKS_DESCRIPTION: &'static str = "Controls Windows' automatic disk space monitoring and notification system. When enabled, Windows monitors free space on all drives and shows warnings when space is low. Disabling removes these notifications but also prevents Windows from automatically cleaning up temporary files when disk space is low. Note: This doesn't affect Windows' ability to write to disks; it only controls the monitoring and notification system. Consider keeping enabled on systems with limited storage.";

/// The option table of the "Low Disk Space Checks" tweak: each option with the registry
/// values it writes, in order.
pub open spec fn disable_low_disk_space_checks_table() -> Seq<(OptionView, Seq<ModificationView>)> {
    seq![
        (OptionView::Enabled(false), seq![
            set_dword("HKEY_CURRENT_USER\\Software\\Microsoft\\Windows\\CurrentVersion\\Policies\\Explorer", "NoLowDiskSpaceChecks", 0),
        ]),
        (OptionView::Enabled(true), seq![
            set_dword("HKEY_CURRENT_USER\\Software\\Microsoft\\Windows\\CurrentVersion\\Policies\\Explorer", "NoLowDiskSpaceChecks", 1),
        ]),
    ]
}

/// The "Low Disk Space Checks" tweak as `disable_low_disk_space_checks` builds it.
#[verifier::opaque]
pub open spec fn is_disable_low_disk_space_checks(t: Tweak) -> bool {
    &&& fresh_tweak(t, "Low Disk Space Checks", DISABLE_LOW_DISK_SPACE_CHECKS_DESCRIPTION@, TweakCategory::System, false)
    &&& keyed_tweak(t, seq![OptionView::Enabled(false), OptionView::Enabled(true)])
    &&& registry_table(t, TweakId::NoLowDiskSpaceChecks, disable_low_disk_space_checks_table())
}

/// Builds the "Low Disk Space Checks" tweak.
pub fn disable_low_disk_space_checks() -> (r: Tweak)
    ensures
        is_disable_low_disk_space_checks(r),
{
    let options = vec![
        (TweakOption::Enabled(false), vec![
            RegistryModification { path: "HKEY_CURRENT_USER\\Software\\Microsoft\\Windows\\CurrentVersion\\Policies\\Explorer", key: "NoLowDiskSpaceChecks", value: RegistryKeyValue::Dword(0) },
        ]),
        (TweakOption::Enabled(true), vec![
            RegistryModification { path: "HKEY_CURRENT_USER\\Software\\Microsoft\\Windows\\CurrentVersion\\Policies\\Explorer", key: "NoLowDiskSpaceChecks", value: RegistryKeyValue::Dword(1) },
        ]),
    ];
    proof {
        lemma_indexed_from_identity(options@);
        assert(table_view(options@) =~~= disable_low_disk_space_checks_table());
        assert(entry_keys(options@) =~= seq![OptionView::Enabled(false), OptionView::Enabled(true)]);
    }
    let r = Tweak::registry_tweak(
        "Low Disk Space Checks",
        DISABLE_LOW_DISK_SPACE_CHECKS_DESCRIPTION,
        TweakCategory::System,
        RegistryTweak { id: TweakId::NoLowDiskSpaceChecks, options: registry_options_from(options) },
        false,
    );
    proof {
        reveal(is_disable_low_disk_space_checks);
    }
    r
}

/// The description of the "Windows Error Reporting" tweak.
pub const DISABLE_WINDOWS_ERROR_REPORTING_DESCRIPTION: &'static str = "Controls Windows' error reporting system that sends crash and diagnostic data to Microsoft. When enabled, Windows collects and sends error reports to help identify and fix software issues. Disabling prevents all error reporting, which:\n• Increases privacy by preventing diagnostic data transmission\n• Eliminates the delay caused by error report generation after crashes\n• May make troubleshooting harder as no local error reports are generated\n• Prevents automatic notification of fixes for known crashes\nConsider keeping enabled on development machines where crash diagnostics are valuable.";

/// The option table of the "Windows Error Reporting" tweak: each option with the registry
/// values it writes, in order.
pub open spec fn disable_windows_error_reporting_table() -> Seq<(OptionView, Seq<ModificationView>)> {
    seq![
        (OptionView::Enabled(false), seq![
            set_dword("HKEY_LOCAL_MACHINE\\SOFTWARE\\Microsoft\\Windows\\Windows Error Reporting", "Disabled", 0),
        ]),
        (OptionView::Enabled(true), seq![
            set_dword("HKEY_LOCAL_MACHINE\\SOFTWARE\\Microsoft\\Windows\\Windows Error Reporting", "Disabled", 1),
        ]),
    ]
}

/// The "Windows Error Reporting" tweak as `disable_windows_error_reporting` builds it.
#[verifier::opaque]
pub open spec fn is_disable_windows_error_reporting(t: Tweak) -> bool {
    &&& fresh_tweak(t, "Windows Error Reporting", DISABLE_WINDOWS_ERROR_REPORTING_DESCRIPTION@, TweakCategory::Telemetry, false)
    &&& keyed_tweak(t, seq![OptionView::Enabled(false), OptionView::Enabled(true)])
    &&& registry_table(t, TweakId::DisableWindowsErrorReporting, disable_windows_error_reporting_table())
}

/// Builds the "Windows Error Reporting" tweak.
pub fn disable_windows_error_reporting() -> (r: Tweak)
    ensures
        is_disable_windows_error_reporting(r),
{
    let options = vec![
        (TweakOption::Enabled(false), vec![
            RegistryModification { path: "HKEY_LOCAL_MACHINE\\SOFTWARE\\Microsoft\\Windows\\Windows Error Reporting", key: "Disabled", value: RegistryKeyValue::Dword(0) },
        ]),
        (TweakOption::Enabled(true), vec![
            RegistryModification { path: "HKEY_LOCAL_MACHINE\\SOFTWARE\\Microsoft\\Windows\\Windows Error Reporting", key: "Disabled", value: RegistryKeyValue::Dword(1) },
        ]),
    ];
    proof {
        lemma_indexed_from_identity(options@);
        assert(table_view(options@) =~~= disable_windows_error_reporting_table());
        assert(entry_keys(options@) =~= seq![OptionView::Enabled(false), OptionView::Enabled(true)]);
    }
    let r = Tweak::registry_tweak(
        "Windows Error Reporting",
        DISABLE_WINDOWS_ERROR_REPORTING_DESCRIPTION,
        TweakCategory::Telemetry,
        RegistryTweak { id: TweakId::DisableWindowsErrorReporting, options: registry_options_from(options) },
        false,
    );
    proof {
        reveal(is_disable_windows_error_reporting);
    }
    r
}

/// The description of the "Disable Driver Verification" tweak.
pub const DONT_VERIFY_RANDOM_DRIVERS_DESCRIPTION: &'static str = "Controls Windows' random driver verification system which periodically verifies the integrity of device drivers.";

/// The option table of the "Disable Driver Verification" tweak: each option with the registry
/// values it writes, in order.
pub open spec fn dont_verify_random_drivers_table() -> Seq<(OptionView, Seq<ModificationView>)> {
    seq![
        (OptionView::Enabled(false), seq![
            set_dword("HKEY_LOCAL_MACHINE\\SYSTEM\\CurrentControlSet\\Control\\FileSystem", "DontVerifyRandomDrivers", 0),
        ]),
        (OptionView::Enabled(true), seq![
            set_dword("HKEY_LOCAL_MACHINE\\SYSTEM\\CurrentControlSet\\Control\\FileSystem", "DontVerifyRandomDrivers", 1),
        ]),
    ]
}

/// The "Disable Driver Verification" tweak as `dont_verify_random_drivers` builds it.
#[verifier::opaque]
pub open spec fn is_dont_verify_random_drivers(t: Tweak) -> bool {
    &&& fresh_tweak(t, "Disable Driver Verification", DONT_VERIFY_RANDOM_DRIVERS_DESCRIPTION@, TweakCategory::System, true)
    &&& keyed_tweak(t, seq![OptionView::Enabled(false), OptionView::Enabled(true)])
    &&& registry_table(t, TweakId::DontVerifyRandomDrivers, dont_verify_random_drivers_table())
}

/// Builds the "Disable Driver Verification" tweak.
pub fn dont_verify_random_drivers() -> (r: Tweak)
    ensures
        is_dont_verify_random_drivers(r),
{
    let options = vec![
        (TweakOption::Enabled(false), vec![
            RegistryModification { path: "HKEY_LOCAL_MACHINE\\SYSTEM\\CurrentControlSet\\Control\\FileSystem", key: "DontVerifyRandomDrivers", value: RegistryKeyValue::Dword(0) },
        ]),
        (TweakOption::Enabled(true), vec![
            RegistryModification { path: "HKEY_LOCAL_MACHINE\\SYSTEM\\CurrentControlSet\\Control\\FileSystem", key: "DontVerifyRandomDrivers", value: RegistryKeyValue::Dword(1) },
        ]),
    ];
    proof {
        lemma_indexed_from_identity(options@);
        assert(table_view(options@) =~~= dont_verify_random_drivers_table());
        assert(entry_keys(options@) =~= seq![OptionView::Enabled(false), OptionView::Enabled(true)]);
    }
    let r = Tweak::registry_tweak(
        "Disable Driver Verification",
        DONT_VERIFY_RANDOM_DRIVERS_DESCRIPTION,
        TweakCategory::System,
        RegistryTweak { id: TweakId::DontVerifyRandomDrivers, options: registry_options_from(options) },
        true,
    );
    proof {
        reveal(is_dont_verify_random_drivers);
    }
    r
}

/// The description of the "Driver Paging" tweak.
pub const DISABLE_DRIVER_PAGING_DESCRIPTION: &'static str = "Controls whether Windows can page kernel-mode drivers and system code to disk. When disabled:\n• Forces all drivers and system code to remain in physical RAM\n• Can improve system responsiveness by preventing driver code from being paged out\n• Significantly increases RAM usage as drivers cannot be swapped";

/// The option table of the "Driver Paging" tweak: each option with the registry
/// values it writes, in order.
pub open spec fn disable_driver_paging_table() -> Seq<(OptionView, Seq<ModificationView>)> {
    seq![
        (OptionView::Enabled(false), seq![
            set_dword("HKEY_LOCAL_MACHINE\\SYSTEM\\ControlSet001\\Control\\Session Manager\\Memory Management", "DisablePagingExecutive", 0),
        ]),
        (OptionView::Enabled(true), seq![
            set_dword("HKEY_LOCAL_MACHINE\\SYSTEM\\ControlSet001\\Control\\Session Manager\\Memory Management", "DisablePagingExecutive", 1),
        ]),
    ]
}

/// The "Driver Paging" tweak as `disable_driver_paging` builds it.
#[verifier::opaque]
pub open spec fn is_disable_driver_paging(t: Tweak) -> bool {
    &&& fresh_tweak(t, "Driver Paging", DISABLE_DRIVER_PAGING_DESCRIPTION@, TweakCategory::Memory, true)
    &&& keyed_tweak(t, seq![OptionView::Enabled(false), OptionView::Enabled(true)])
    &&& registry_table(t, TweakId::DisableDriverPaging, disable_driver_paging_table())
}

/// Builds the "Driver Paging" tweak.
pub fn disable_driver_paging() -> (r: Tweak)
    ensures
        is_disable_driver_paging(r),
{
    let options = vec![
        (TweakOption::Enabled(false), vec![
            RegistryModification { path: "HKEY_LOCAL_MACHINE\\SYSTEM\\ControlSet001\\Control\\Session Manager\\Memory Management", key: "DisablePagingExecutive", value: RegistryKeyValue::Dword(0) },
        ]),
        (TweakOption::Enabled(true), vec![
            RegistryModification { path: "HKEY_LOCAL_MACHINE\\SYSTEM\\ControlSet001\\Control\\Session Manager\\Memory Management", key: "DisablePagingExecutive", value: RegistryKeyValue::Dword(1) },
        ]),
    ];
    proof {
        lemma_indexed_from_identity(options@);
        assert(table_view(options@) =~~= disable_driver_paging_table());
        assert(entry_keys(options@) =~= seq![OptionView::Enabled(false), OptionView::Enabled(true)]);
    }
    let r = Tweak::registry_tweak(
        "Driver Paging",
        DISABLE_DRIVER_PAGING_DESCRIPTION,
        TweakCategory::Memory,
        RegistryTweak { id: TweakId::DisableDriverPaging, options: registry_options_from(options) },
        true,
    );
    proof {
        reveal(is_disable_driver_paging);
    }
    r
}

/// The description of the "Configure Prefetcher Service" tweak.
pub const CONFIGURE_PREFETCHER_SERVICE_DESCRIPTION: &'static str = "Controls Windows' Prefetcher service that manages application and boot file caching. Available modes:\n• 0 (Disabled): No prefetching of applications or boot files\n• 1 (Application): Only prefetch application files\n• 2 (Boot): Only prefetch boot files\n• 3 (Default): Prefetch both application and boot files\nDisabling can improve performance on SSDs and reduce disk writes.";

/// The option table of the "Configure Prefetcher Service" tweak: each option with the registry
/// values it writes, in order.
pub open spec fn configure_prefetcher_service_table() -> Seq<(OptionView, Seq<ModificationView>)> {
    seq![
        (OptionView::Choice("Default"@), seq![
            set_dword("HKEY_LOCAL_MACHINE\\SYSTEM\\CurrentControlSet\\Control\\Session Manager\\Memory Management\\PrefetchParameters", "EnablePrefetcher", 3),
        ]),
        (OptionView::Choice("Boot Only"@), seq![
            set_dword("HKEY_LOCAL_MACHINE\\SYSTEM\\CurrentControlSet\\Control\\Session Manager\\Memory Management\\PrefetchParameters", "EnablePrefetcher", 2),
        ]),
        (OptionView::Choice("Application Only"@), seq![
            set_dword("HKEY_LOCAL_MACHINE\\SYSTEM\\CurrentControlSet\\Control\\Session Manager\\Memory Management\\PrefetchParameters", "EnablePrefetcher", 1),
        ]),
        (OptionView::Choice("Disabled"@), seq![
            set_dword("HKEY_LOCAL_MACHINE\\SYSTEM\\CurrentControlSet\\Control\\Session Manager\\Memory Management\\PrefetchParameters", "EnablePrefetcher", 0),
        ]),
    ]
}

/// The "Configure Prefetcher Service" tweak as `configure_prefetcher_service` builds it.
#[verifier::opaque]
pub open spec fn is_configure_prefetcher_service(t: Tweak) -> bool {
    &&& fresh_tweak(t, "Configure Prefetcher Service", CONFIGURE_PREFETCHER_SERVICE_DESCRIPTION@, TweakCategory::Services, true)
    &&& keyed_tweak(t, seq![OptionView::Choice("Default"@), OptionView::Choice("Boot Only"@), OptionView::Choice("Application Only"@), OptionView::Choice("Disabled"@)])
    &&& registry_table(t, TweakId::DisablePrefetcher, configure_prefetcher_service_table())
}

/// Builds the "Configure Prefetcher Service" tweak.
pub fn configure_prefetcher_service() -> (r: Tweak)
    ensures
        is_configure_prefetcher_service(r),
{
    let options = vec![
        (TweakOption::Option(String::from_str("Default")), vec![
            RegistryModification { path: "HKEY_LOCAL_MACHINE\\SYSTEM\\CurrentControlSet\\Control\\Session Manager\\Memory Management\\PrefetchParameters", key: "EnablePrefetcher", value: RegistryKeyValue::Dword(3) },
        ]),
        (TweakOption::Option(String::from_str("Boot Only")), vec![
            RegistryModification { path: "HKEY_LOCAL_MACHINE\\SYSTEM\\CurrentControlSet\\Control\\Session Manager\\Memory Management\\PrefetchParameters", key: "EnablePrefetcher", value: RegistryKeyValue::Dword(2) },
        ]),
        (TweakOption::Option(String::from_str("Application Only")), vec![
            RegistryModification { path: "HKEY_LOCAL_MACHINE\\SYSTEM\\CurrentControlSet\\Control\\Session Manager\\Memory Management\\PrefetchParameters", key: "EnablePrefetcher", value: RegistryKeyValue::Dword(1) },
        ]),
        (TweakOption::Option(String::from_str("Disabled")), vec![
            RegistryModification { path: "HKEY_LOCAL_MACHINE\\SYSTEM\\CurrentControlSet\\Control\\Session Manager\\Memory Management\\PrefetchParameters", key: "EnablePrefetcher", value: RegistryKeyValue::Dword(0) },
        ]),
    ];
    proof {
        reveal_strlit("Default");
        reveal_strlit("Boot Only");
        reveal_strlit("Application Only");
        reveal_strlit("Disabled");
        assert("Default"@.len() == 7);
        assert("Boot Only"@.len() == 9);
        assert("Application Only"@.len() == 16);
        assert("Disabled"@.len() == 8);
        assert(options@[0].0@ == OptionView::Choice("Default"@));
        assert(options@[1].0@ == OptionView::Choice("Boot Only"@));
        assert(options@[2].0@ == OptionView::Choice("Application Only"@));
        assert(options@[3].0@ == OptionView::Choice("Disabled"@));
        assert forall|i: int, j: int| 0 <= i < j < options@.len() implies options@[i].0@ != options@[j].0@ by {
            if i == 0 && j == 1 {} else if i == 0 && j == 2 {} else if i == 0 && j == 3 {} else if i == 1 && j == 2 {} else if i == 1 && j == 3 {} else {}
        }
        lemma_indexed_from_identity(options@);
        assert(table_view(options@) =~~= configure_prefetcher_service_table());
        assert(entry_keys(options@) =~= seq![OptionView::Choice("Default"@), OptionView::Choice("Boot Only"@), OptionView::Choice("Application Only"@), OptionView::Choice("Disabled"@)]);
    }
    let r = Tweak::registry_tweak(
        "Configure Prefetcher Service",
        CONFIGURE_PREFETCHER_SERVICE_DESCRIPTION,
        TweakCategory::Services,
        RegistryTweak { id: TweakId::DisablePrefetcher, options: registry_options_from(options) },
        true,
    );
    proof {
        reveal(is_configure_prefetcher_service);
    }
    r
}

/// The description of the "Application Telemetry" tweak.
pub const DISABLE_APPLICATION_TELEMETRY_DESCRIPTION: &'static str = "Controls Windows' Application Insights Telemetry system that collects application usage and performance data. When disabled:\n• Prevents collection and transmission of application usage patterns\n• Stops reporting of application compatibility issues to Microsoft\n• May reduce effectiveness of application compatibility features\n• Improves privacy and slightly reduces system overhead\nNote: This setting specifically affects application compatibility telemetry and is separate from other Windows telemetry settings.";

/// The option table of the "Application Telemetry" tweak: each option with the registry
/// values it writes, in order.
pub open spec fn disable_application_telemetry_table() -> Seq<(OptionView, Seq<ModificationView>)> {
    seq![
        (OptionView::Enabled(false), seq![
            set_dword("HKEY_LOCAL_MACHINE\\SOFTWARE\\Policies\\Microsoft\\Windows\\AppCompat", "AITEnable", 1),
        ]),
        (OptionView::Enabled(true), seq![
            set_dword("HKEY_LOCAL_MACHINE\\SOFTWARE\\Policies\\Microsoft\\Windows\\AppCompat", "AITEnable", 0),
        ]),
    ]
}

/// The "Application Telemetry" tweak as `disable_application_telemetry` builds it.
#[verifier::opaque]
pub open spec fn is_disable_application_telemetry(t: Tweak) -> bool {
    &&& fresh_tweak(t, "Application Telemetry", DISABLE_APPLICATION_TELEMETRY_DESCRIPTION@, TweakCategory::Telemetry, false)
    &&& keyed_tweak(t, seq![OptionView::Enabled(false), OptionView::Enabled(true)])
    &&& registry_table(t, TweakId::DisableApplicationTelemetry, disable_application_telemetry_table())
}

/// Builds the "Application Telemetry" tweak.
pub fn disable_application_telemetry() -> (r: Tweak)
    ensures
        is_disable_application_telemetry(r),
{
    let options = vec![
        (TweakOption::Enabled(false), vec![
            RegistryModification { path: "HKEY_LOCAL_MACHINE\\SOFTWARE\\Policies\\Microsoft\\Windows\\AppCompat", key: "AITEnable", value: RegistryKeyValue::Dword(1) },
        ]),
        (TweakOption::Enabled(true), vec![
            RegistryModification { path: "HKEY_LOCAL_MACHINE\\SOFTWARE\\Policies\\Microsoft\\Windows\\AppCompat", key: "AITEnable", value: RegistryKeyValue::Dword(0) },
        ]),
    ];
    proof {
        lemma_indexed_from_identity(options@);
        assert(table_view(options@) =~~= disable_application_telemetry_table());
        assert(entry_keys(options@) =~= seq![OptionView::Enabled(false), OptionView::Enabled(true)]);
    }
    let r = Tweak::registry_tweak(
        "Application Telemetry",
        DISABLE_APPLICATION_TELEMETRY_DESCRIPTION,
        TweakCategory::Telemetry,
        RegistryTweak { id: TweakId::DisableApplicationTelemetry, options: registry_options_from(options) },
        false,
    );
    proof {
        reveal(is_disable_application_telemetry);
    }
    r
}

/// The description of the "Service Host Grouping Threshold" tweak.
pub const SVC_HOST_SPLIT_THRESHOLD_DESCRIPTION: &'static str = "Controls how Windows groups services into shared Service Host (svchost.exe) processes based on system RAM. The threshold determines when services get their own process:\n• Default: Windows automatically groups services based on memory usage\n• No Split: All services run in the same svchost.exe process\n• Max Split: Each service runs in its own svchost.exe process\nHigher values increase service isolation, improving stability and security but using more memory. Lower values reduce memory usage but increase the impact of service crashes. Warning: Very high values may significantly increase RAM usage.";

/// The option table of the "Service Host Grouping Threshold" tweak: each option with the registry
/// values it writes, in order.
pub open spec fn svc_host_split_threshold_table() -> Seq<(OptionView, Seq<ModificationView>)> {
    seq![
        (OptionView::Choice("Default"@), seq![
            set_dword("HKEY_LOCAL_MACHINE\\SYSTEM\\CurrentControlSet\\Control", "SvcHostSplitThresholdInKB", 3670016),
        ]),
        (OptionView::Choice("No Split"@), seq![
            set_dword("HKEY_LOCAL_MACHINE\\SYSTEM\\CurrentControlSet\\Control", "SvcHostSplitThresholdInKB", 861226034),
        ]),
        (OptionView::Choice("Max Split"@), seq![
            set_dword("HKEY_LOCAL_MACHINE\\SYSTEM\\CurrentControlSet\\Control", "SvcHostSplitThresholdInKB", 0),
        ]),
    ]
}

/// The "Service Host Grouping Threshold" tweak as `svc_host_split_threshold` builds it.
#[verifier::opaque]
pub open spec fn is_svc_host_split_threshold(t: Tweak) -> bool {
    &&& fresh_tweak(t, "Service Host Grouping Threshold", SVC_HOST_SPLIT_THRESHOLD_DESCRIPTION@, TweakCategory::System, true)
    &&& keyed_tweak(t, seq![OptionView::Choice("Default"@), OptionView::Choice("No Split"@), OptionView::Choice("Max Split"@)])
    &&& registry_table(t, TweakId::SvcHostSplitThreshold, svc_host_split_threshold_table())
}

/// Builds the "Service Host Grouping Threshold" tweak.
pub fn svc_host_split_threshold() -> (r: Tweak)
    ensures
        is_svc_host_split_threshold(r),
{
    let options = vec![
        (TweakOption::Option(String::from_str("Default")), vec![
            RegistryModification { path: "HKEY_LOCAL_MACHINE\\SYSTEM\\CurrentControlSet\\Control", key: "SvcHostSplitThresholdInKB", value: RegistryKeyValue::Dword(3670016) },
        ]),
        (TweakOption::Option(String::from_str("No Split")), vec![
            RegistryModification { path: "HKEY_LOCAL_MACHINE\\SYSTEM\\CurrentControlSet\\Control", key: "SvcHostSplitThresholdInKB", value: RegistryKeyValue::Dword(861226034) },
        ]),
        (TweakOption::Option(String::from_str("Max Split")), vec![
            RegistryModification { path: "HKEY_LOCAL_MACHINE\\SYSTEM\\CurrentControlSet\\Control", key: "SvcHostSplitThresholdInKB", value: RegistryKeyValue::Dword(0) },
        ]),
    ];
    proof {
        reveal_strlit("Default");
        reveal_strlit("No Split");
        reveal_strlit("Max Split");
        assert("Default"@.len() == 7);
        assert("No Split"@.len() == 8);
        assert("Max Split"@.len() == 9);
        assert(options@[0].0@ == OptionView::Choice("Default"@));
        assert(options@[1].0@ == OptionView::Choice("No Split"@));
        assert(options@[2].0@ == OptionView::Choice("Max Split"@));
        assert forall|i: int, j: int| 0 <= i < j < options@.len() implies options@[i].0@ != options@[j].0@ by {
            if i == 0 && j == 1 {} else if i == 0 && j == 2 {} else {}
        }
        lemma_indexed_from_identity(options@);
        assert(table_view(options@) =~~= svc_host_split_threshold_table());
        assert(entry_keys(options@) =~= seq![OptionView::Choice("Default"@), OptionView::Choice("No Split"@), OptionView::Choice("Max Split"@)]);
    }
    let r = Tweak::registry_tweak(
        "Service Host Grouping Threshold",
        SVC_HOST_SPLIT_THRESHOLD_DESCRIPTION,
        TweakCategory::System,
        RegistryTweak { id: TweakId::SvcHostSplitThreshold, options: registry_options_from(options) },
        true,
    );
    proof {
        reveal(is_svc_host_split_threshold);
    }
    r
}

/// The description of the "Disable Windows Defender" tweak.
pub const DISABLE_WINDOWS_DEFENDER_DESCRIPTION: &'static str = "Controls Windows Defender's real-time protection and monitoring capabilities.";

/// The option table of the "Disable Windows Defender" tweak: each option with the registry
/// values it writes, in order.
pub open spec fn disable_windows_defender_table() -> Seq<(OptionView, Seq<ModificationView>)> {
    seq![
        (OptionView::Enabled(false), seq![
            set_dword("HKEY_LOCAL_MACHINE\\SOFTWARE\\Policies\\Microsoft\\Windows Defender", "DisableAntiSpyware", 0),
        ]),
        (OptionView::Enabled(true), seq![
            set_dword("HKEY_LOCAL_MACHINE\\SOFTWARE\\Policies\\Microsoft\\Windows Defender", "DisableAntiSpyware", 1),
        ]),
    ]
}

/// The "Disable Windows Defender" tweak as `disable_windows_defender` builds it.
#[verifier::opaque]
pub open spec fn is_disable_windows_defender(t: Tweak) -> bool {
    &&& fresh_tweak(t, "Disable Windows Defender", DISABLE_WINDOWS_DEFENDER_DESCRIPTION@, TweakCategory::Security, true)
    &&& keyed_tweak(t, seq![OptionView::Enabled(false), OptionView::Enabled(true)])
    &&& registry_table(t, TweakId::DisableWindowsDefender, disable_windows_defender_table())
}

/// Builds the "Disable Windows Defender" tweak.
pub fn disable_windows_defender() -> (r: Tweak)
    ensures
        is_disable_windows_defender(r),
{
    let options = vec![
        (TweakOption::Enabled(false), vec![
            RegistryModification { path: "HKEY_LOCAL_MACHINE\\SOFTWARE\\Policies\\Microsoft\\Windows Defender", key: "DisableAntiSpyware", value: RegistryKeyValue::Dword(0) },
        ]),
        (TweakOption::Enabled(true), vec![
            RegistryModification { path: "HKEY_LOCAL_MACHINE\\SOFTWARE\\Policies\\Microsoft\\Windows Defender", key: "DisableAntiSpyware", value: RegistryKeyValue::Dword(1) },
        ]),
    ];
    proof {
        lemma_indexed_from_identity(options@);
        assert(table_view(options@) =~~= disable_windows_defender_table());
        assert(entry_keys(options@) =~= seq![OptionView::Enabled(false), OptionView::Enabled(true)]);
    }
    let r = Tweak::registry_tweak(
        "Disable Windows Defender",
        DISABLE_WINDOWS_DEFENDER_DESCRIPTION,
        TweakCategory::Security,
        RegistryTweak { id: TweakId::DisableWindowsDefender, options: registry_options_from(options) },
        true,
    );
    proof {
        reveal(is_disable_windows_defender);
    }
    r
}

/// The description of the "Disable Page File Encryption" tweak.
pub const DISABLE_PAGE_FILE_ENCRYPTION_DESCRIPTION: &'static str = "Controls NTFS page file encryption which protects sensitive data when written to disk. When disabled:\n• Reduces disk I/O overhead from encryption/decryption\n• May slightly improve system performance";

/// The option table of the "Disable Page File Encryption" tweak: each option with the registry
/// values it writes, in order.
pub open spec fn disable_page_file_encryption_table() -> Seq<(OptionView, Seq<ModificationView>)> {
    seq![
        (OptionView::Enabled(false), seq![
            set_dword("HKEY_LOCAL_MACHINE\\SYSTEM\\CurrentControlSet\\Control\\FileSystem", "NtfsEncryptPagingFile", 1),
        ]),
        (OptionView::Enabled(true), seq![
            set_dword("HKEY_LOCAL_MACHINE\\SYSTEM\\CurrentControlSet\\Control\\FileSystem", "NtfsEncryptPagingFile", 0),
        ]),
    ]
}

/// The "Disable Page File Encryption" tweak as `disable_page_file_encryption` builds it.
#[verifier::opaque]
pub open spec fn is_disable_page_file_encryption(t: Tweak) -> bool {
    &&& fresh_tweak(t, "Disable Page File Encryption", DISABLE_PAGE_FILE_ENCRYPTION_DESCRIPTION@, TweakCategory::Memory, true)
    &&& keyed_tweak(t, seq![OptionView::Enabled(false), OptionView::Enabled(true)])
    &&& registry_table(t, TweakId::DisablePageFileEncryption, disable_page_file_encryption_table())
}

/// Builds the "Disable Page File Encryption" tweak.
pub fn disable_page_file_encryption() -> (r: Tweak)
    ensures
        is_disable_page_file_encryption(r),
{
    let options = vec![
        (TweakOption::Enabled(false), vec![
            RegistryModification { path: "HKEY_LOCAL_MACHINE\\SYSTEM\\CurrentControlSet\\Control\\FileSystem", key: "NtfsEncryptPagingFile", value: RegistryKeyValue::Dword(1) },
        ]),
        (TweakOption::Enabled(true), vec![
            RegistryModification { path: "HKEY_LOCAL_MACHINE\\SYSTEM\\CurrentControlSet\\Control\\FileSystem", key: "NtfsEncryptPagingFile", value: RegistryKeyValue::Dword(0) },
        ]),
    ];
    proof {
        lemma_indexed_from_identity(options@);
        assert(table_view(options@) =~~= disable_page_file_encryption_table());
        assert(entry_keys(options@) =~= seq![OptionView::Enabled(false), OptionView::Enabled(true)]);
    }
    let r = Tweak::registry_tweak(
        "Disable Page File Encryption",
        DISABLE_PAGE_FILE_ENCRYPTION_DESCRIPTION,
        TweakCategory::Memory,
        RegistryTweak { id: TweakId::DisablePageFileEncryption, options: registry_options_from(options) },
        true,
    );
    proof {
        reveal(is_disable_page_file_encryption);
    }
    r
}

/// The description of the "Intel TSX" tweak.
pub const DISABLE_INTEL_TSX_DESCRIPTION: &'static str = "Controls Intel Transactional Synchronization Extensions (TSX), a CPU feature for hardware transactional memory. When disabled:\n• Mitigates potential security vulnerabilities (MDS, Zombieload)\n• Prevents speculative execution attacks via TSX\n• May reduce performance in heavily multi-threaded applications\n• Affects only Intel CPUs with TSX support\nNote: Modern Intel CPUs often have TSX disabled by default via microcode. This setting ensures it remains disabled even if microcode is updated.";

/// The option table of the "Intel TSX" tweak: each option with the registry
/// values it writes, in order.
pub open spec fn disable_intel_tsx_table() -> Seq<(OptionView, Seq<ModificationView>)> {
    seq![
        (OptionView::Enabled(false), seq![
            set_dword("HKEY_LOCAL_MACHINE\\SYSTEM\\CurrentControlSet\\Control\\Session Manager\\Kernel", "DisableTsx", 0),
        ]),
        (OptionView::Enabled(true), seq![
            set_dword("HKEY_LOCAL_MACHINE\\SYSTEM\\CurrentControlSet\\Control\\Session Manager\\Kernel", "DisableTsx", 1),
        ]),
    ]
}

/// The "Intel TSX" tweak as `disable_intel_tsx` builds it.
#[verifier::opaque]
pub open spec fn is_disable_intel_tsx(t: Tweak) -> bool {
    &&& fresh_tweak(t, "Intel TSX", DISABLE_INTEL_TSX_DESCRIPTION@, TweakCategory::Security, true)
    &&& keyed_tweak(t, seq![OptionView::Enabled(false), OptionView::Enabled(true)])
    &&& registry_table(t, TweakId::DisableIntelTSX, disable_intel_tsx_table())
}

/// Builds the "Intel TSX" tweak.
pub fn disable_intel_tsx() -> (r: Tweak)
    ensures
        is_disable_intel_tsx(r),
{
    let options = vec![
        (TweakOption::Enabled(false), vec![
            RegistryModification { path: "HKEY_LOCAL_MACHINE\\SYSTEM\\CurrentControlSet\\Control\\Session Manager\\Kernel", key: "DisableTsx", value: RegistryKeyValue::Dword(0) },
        ]),
        (TweakOption::Enabled(true), vec![
            RegistryModification { path: "HKEY_LOCAL_MACHINE\\SYSTEM\\CurrentControlSet\\Control\\Session Manager\\Kernel", key: "DisableTsx", value: RegistryKeyValue::Dword(1) },
        ]),
    ];
    proof {
        lemma_indexed_from_identity(options@);
        assert(table_view(options@) =~~= disable_intel_tsx_table());
        assert(entry_keys(options@) =~= seq![OptionView::Enabled(false), OptionView::Enabled(true)]);
    }
    let r = Tweak::registry_tweak(
        "Intel TSX",
        DISABLE_INTEL_TSX_DESCRIPTION,
        TweakCategory::Security,
        RegistryTweak { id: TweakId::DisableIntelTSX, options: registry_options_from(options) },
        true,
    );
    proof {
        reveal(is_disable_intel_tsx);
    }
    r
}

/// The description of the "Disable Windows Maintenance" tweak.
pub const DISABLE_WINDOWS_MAINTENANCE_DESCRIPTION: &'static str = "Controls Windows' automated maintenance tasks that run during system idle time. These tasks include:\n• Disk defragmentation and optimization\n• System diagnostics and error reporting\n• Windows Update maintenance and cache cleanup\n• Security scanning and malware removal";

/// The option table of the "Disable Windows Maintenance" tweak: each option with the registry
/// values it writes, in order.
pub open spec fn disable_windows_maintenance_table() -> Seq<(OptionView, Seq<ModificationView>)> {
    seq![
        (OptionView::Enabled(false), seq![
            set_dword("HKEY_LOCAL_MACHINE\\SOFTWARE\\Microsoft\\Windows NT\\CurrentVersion\\Schedule\\Maintenance", "MaintenanceDisabled", 0),
        ]),
        (OptionView::Enabled(true), seq![
            set_dword("HKEY_LOCAL_MACHINE\\SOFTWARE\\Microsoft\\Windows NT\\CurrentVersion\\Schedule\\Maintenance", "MaintenanceDisabled", 1),
        ]),
    ]
}

/// The "Disable Windows Maintenance" tweak as `disable_windows_maintenance` builds it.
#[verifier::opaque]
pub open spec fn is_disable_windows_maintenance(t: Tweak) -> bool {
    &&& fresh_tweak(t, "Disable Windows Maintenance", DISABLE_WINDOWS_MAINTENANCE_DESCRIPTION@, TweakCategory::System, true)
    &&& keyed_tweak(t, seq![OptionView::Enabled(false), OptionView::Enabled(true)])
    &&& registry_table(t, TweakId::DisableWindowsMaintenance, disable_windows_maintenance_table())
}

/// Builds the "Disable Windows Maintenance" tweak.
pub fn disable_windows_maintenance() -> (r: Tweak)
    ensures
        is_disable_windows_maintenance(r),
{
    let options = vec![
        (TweakOption::Enabled(false), vec![
            RegistryModification { path: "HKEY_LOCAL_MACHINE\\SOFTWARE\\Microsoft\\Windows NT\\CurrentVersion\\Schedule\\Maintenance", key: "MaintenanceDisabled", value: RegistryKeyValue::Dword(0) },
        ]),
        (TweakOption::Enabled(true), vec![
            RegistryModification { path: "HKEY_LOCAL_MACHINE\\SOFTWARE\\Microsoft\\Windows NT\\CurrentVersion\\Schedule\\Maintenance", key: "MaintenanceDisabled", value: RegistryKeyValue::Dword(1) },
        ]),
    ];
    proof {
        lemma_indexed_from_identity(options@);
        assert(table_view(options@) =~~= disable_windows_maintenance_table());
        assert(entry_keys(options@) =~= seq![OptionView::Enabled(false), OptionView::Enabled(true)]);
    }
    let r = Tweak::registry_tweak(
        "Disable Windows Maintenance",
        DISABLE_WINDOWS_MAINTENANCE_DESCRIPTION,
        TweakCategory::System,
        RegistryTweak { id: TweakId::DisableWindowsMaintenance, options: registry_options_from(options) },
        true,
    );
    proof {
        reveal(is_disable_windows_maintenance);
    }
    r
}

/// The description of the "Disable Speculation Mitigations" tweak.
pub const DISABLE_SPECULATIVE_EXECUTION_MITIGATIONS_DESCRIPTION: &'static str = "Controls CPU security mitigations for speculative execution vulnerabilities (Spectre, Meltdown, etc.). Settings:\n• Default (0): All mitigations enabled as recommended by Microsoft\n• Disabled (3): Disables all software-based mitigations";

/// The option table of the "Disable Speculation Mitigations" tweak: each option with the registry
/// values it writes, in order.
pub open spec fn disable_speculative_execution_mitigations_table() -> Seq<(OptionView, Seq<ModificationView>)> {
    seq![
        (OptionView::Enabled(false), seq![
            set_dword("HKEY_LOCAL_MACHINE\\SYSTEM\\CurrentControlSet\\Control\\Session Manager\\Memory Management", "FeatureSettingsOverride", 0),
            set_dword("HKEY_LOCAL_MACHINE\\SYSTEM\\CurrentControlSet\\Control\\Session Manager\\Memory Management", "FeatureSettingsOverrideMask", 3),
        ]),
        (OptionView::Enabled(true), seq![
            set_dword("HKEY_LOCAL_MACHINE\\SYSTEM\\CurrentControlSet\\Control\\Session Manager\\Memory Management", "FeatureSettingsOverride", 3),
            set_dword("HKEY_LOCAL_MACHINE\\SYSTEM\\CurrentControlSet\\Control\\Session Manager\\Memory Management", "FeatureSettingsOverrideMask", 3),
        ]),
    ]
}

/// The "Disable Speculation Mitigations" tweak as `disable_speculative_execution_mitigations` builds it.
#[verifier::opaque]
pub open spec fn is_disable_speculative_execution_mitigations(t: Tweak) -> bool {
    &&& fresh_tweak(t, "Disable Speculation Mitigations", DISABLE_SPECULATIVE_EXECUTION_MITIGATIONS_DESCRIPTION@, TweakCategory::Security, true)
    &&& keyed_tweak(t, seq![OptionView::Enabled(false), OptionView::Enabled(true)])
    &&& registry_table(t, TweakId::SpeculativeExecutionMitigations, disable_speculative_execution_mitigations_table())
}

/// Builds the "Disable Speculation Mitigations" tweak.
pub fn disable_speculative_execution_mitigations() -> (r: Tweak)
    ensures
        is_disable_speculative_execution_mitigations(r),
{
    let options = vec![
        (TweakOption::Enabled(false), vec![
            RegistryModification { path: "HKEY_LOCAL_MACHINE\\SYSTEM\\CurrentControlSet\\Control\\Session Manager\\Memory Management", key: "FeatureSettingsOverride", value: RegistryKeyValue::Dword(0) },
            RegistryModification { path: "HKEY_LOCAL_MACHINE\\SYSTEM\\CurrentControlSet\\Control\\Session Manager\\Memory Management", key: "FeatureSettingsOverrideMask", value: RegistryKeyValue::Dword(3) },
        ]),
        (TweakOption::Enabled(true), vec![
            RegistryModification { path: "HKEY_LOCAL_MACHINE\\SYSTEM\\CurrentControlSet\\Control\\Session Manager\\Memory Management", key: "FeatureSettingsOverride", value: RegistryKeyValue::Dword(3) },
            RegistryModification { path: "HKEY_LOCAL_MACHINE\\SYSTEM\\CurrentControlSet\\Control\\Session Manager\\Memory Management", key: "FeatureSettingsOverrideMask", value: RegistryKeyValue::Dword(3) },
        ]),
    ];
    proof {
        lemma_indexed_from_identity(options@);
        assert(table_view(options@) =~~= disable_speculative_execution_mitigations_table());
        assert(entry_keys(options@) =~= seq![OptionView::Enabled(false), OptionView::Enabled(true)]);
    }
    let r = Tweak::registry_tweak(
        "Disable Speculation Mitigations",
        DISABLE_SPECULATIVE_EXECUTION_MITIGATIONS_DESCRIPTION,
        TweakCategory::Security,
        RegistryTweak { id: TweakId::SpeculativeExecutionMitigations, options: registry_options_from(options) },
        true,
    );
    proof {
        reveal(is_disable_speculative_execution_mitigations);
    }
    r
}

/// The description of the "Visual Performance Settings" tweak.
pub const HIGH_PERFORMANCE_VISUAL_SETTINGS_DESCRIPTION: &'static str = "Configures Windows visual effects to optimize for performance or visual quality. Affects:\nAnimation Effects:\n• Window minimize/maximize animations\n• Menu and tooltip fading\n• Smooth-scrolling for lists\n• Task switching animations\n• Animation effects in windows and taskbar\n• Animate controls and elements inside windows\nVisual Effects:\n• Desktop composition (transparency)\n• Window shadow effects\n• Taskbar thumbnail previews\n• Aero Peek desktop preview\n• Mouse pointer shadows\n• Font smoothing (ClearType)\n• Thumbnail cache for Windows Explorer\nPerformance Impact:\n• Most significant on systems with integrated graphics\n• Minimal impact on systems with dedicated GPUs\n• Can improve responsiveness on low-end systems\n• May reduce GPU memory usage";

/// The option table of the "Visual Performance Settings" tweak: each option with the registry
/// values it writes, in order.
pub open spec fn high_performance_visual_settings_table() -> Seq<(OptionView, Seq<ModificationView>)> {
    seq![
        (OptionView::Enabled(false), seq![
            set_dword("HKEY_CURRENT_USER\\Software\\Microsoft\\Windows\\CurrentVersion\\Explorer\\VisualEffects", "VisualFXSetting", 0),
            set_dword("HKEY_CURRENT_USER\\Control Panel\\Desktop\\WindowMetrics", "MinAnimate", 1),
            set_binary("HKEY_CURRENT_USER\\Control Panel\\Desktop", "UserPreferencesMask", seq![158u8, 30u8, 7u8, 128u8, 18u8, 0u8, 0u8, 0u8]),
            set_dword("HKEY_CURRENT_USER\\Software\\Microsoft\\Windows\\DWM", "EnableAeroPeek", 1),
            set_dword("HKEY_CURRENT_USER\\Software\\Microsoft\\Windows\\CurrentVersion\\Explorer\\Advanced", "ExtendedUIHoverTime", 400),
            set_dword("HKEY_CURRENT_USER\\Control Panel\\Desktop", "SmoothScroll", 1),
            set_dword("HKEY_CURRENT_USER\\Control Panel\\Desktop", "FontSmoothing", 2),
            set_dword("HKEY_CURRENT_USER\\Control Panel\\Cursors", "CursorShadow", 1),
            set_dword("HKEY_CURRENT_USER\\Software\\Microsoft\\Windows\\CurrentVersion\\Themes\\Personalize", "EnableTransparentGlass", 1),
            set_dword("HKEY_CURRENT_USER\\Software\\Microsoft\\Windows\\CurrentVersion\\Explorer\\Advanced", "TaskbarAnimations", 1),
            set_dword("HKEY_CURRENT_USER\\Software\\Microsoft\\Windows\\DWM", "AlwaysHibernateThumbnails", 1),
            set_dword("HKEY_CURRENT_USER\\Software\\Microsoft\\Windows\\CurrentVersion\\Explorer\\Advanced", "ListviewAlphaSelect", 1),
            set_dword("HKEY_CURRENT_USER\\Software\\Microsoft\\Windows\\CurrentVersion\\Explorer\\Advanced", "ListviewShadow", 1),
        ]),
        (OptionView::Enabled(true), seq![
            set_dword("HKEY_CURRENT_USER\\Software\\Microsoft\\Windows\\CurrentVersion\\Explorer\\VisualEffects", "VisualFXSetting", 2),
            set_dword("HKEY_CURRENT_USER\\Control Panel\\Desktop\\WindowMetrics", "MinAnimate", 0),
            set_binary("HKEY_CURRENT_USER\\Control Panel\\Desktop", "UserPreferencesMask", seq![144u8, 18u8, 3u8, 128u8, 16u8, 0u8, 0u8, 0u8]),
            set_dword("HKEY_CURRENT_USER\\Software\\Microsoft\\Windows\\DWM", "EnableAeroPeek", 0),
            set_dword("HKEY_CURRENT_USER\\Software\\Microsoft\\Windows\\CurrentVersion\\Explorer\\Advanced", "ExtendedUIHoverTime", 0),
            set_dword("HKEY_CURRENT_USER\\Control Panel\\Desktop", "SmoothScroll", 0),
            set_dword("HKEY_CURRENT_USER\\Control Panel\\Desktop", "FontSmoothing", 0),
            set_dword("HKEY_CURRENT_USER\\Control Panel\\Cursors", "CursorShadow", 0),
            set_dword("HKEY_CURRENT_USER\\Software\\Microsoft\\Windows\\CurrentVersion\\Themes\\Personalize", "EnableTransparentGlass", 0),
            set_dword("HKEY_CURRENT_USER\\Software\\Microsoft\\Windows\\CurrentVersion\\Explorer\\Advanced", "TaskbarAnimations", 0),
            set_dword("HKEY_CURRENT_USER\\Software\\Microsoft\\Windows\\DWM", "AlwaysHibernateThumbnails", 0),
            set_dword("HKEY_CURRENT_USER\\Software\\Microsoft\\Windows\\CurrentVersion\\Explorer\\Advanced", "ListviewAlphaSelect", 0),
            set_dword("HKEY_CURRENT_USER\\Software\\Microsoft\\Windows\\CurrentVersion\\Explorer\\Advanced", "ListviewShadow", 0),
        ]),
    ]
}

/// The "Visual Performance Settings" tweak as `high_performance_visual_settings` builds it.
#[verifier::opaque]
pub open spec fn is_high_performance_visual_settings(t: Tweak) -> bool {
    &&& fresh_tweak(t, "Visual Performance Settings", HIGH_PERFORMANCE_VISUAL_SETTINGS_DESCRIPTION@, TweakCategory::Graphics, false)
    &&& keyed_tweak(t, seq![OptionView::Enabled(false), OptionView::Enabled(true)])
    &&& registry_table(t, TweakId::HighPerformanceVisualSettings, high_performance_visual_settings_table())
}

/// Builds the "Visual Performance Settings" tweak.
pub fn high_performance_visual_settings() -> (r: Tweak)
    ensures
        is_high_performance_visual_settings(r),
{
    let options = vec![
        (TweakOption::Enabled(false), vec![
            RegistryModification { path: "HKEY_CURRENT_USER\\Software\\Microsoft\\Windows\\CurrentVersion\\Explorer\\VisualEffects", key: "VisualFXSetting", value: RegistryKeyValue::Dword(0) },
            RegistryModification { path: "HKEY_CURRENT_USER\\Control Panel\\Desktop\\WindowMetrics", key: "MinAnimate", value: RegistryKeyValue::Dword(1) },
            RegistryModification { path: "HKEY_CURRENT_USER\\Control Panel\\Desktop", key: "UserPreferencesMask", value: RegistryKeyValue::Binary(vec![158u8, 30u8, 7u8, 128u8, 18u8, 0u8, 0u8, 0u8]) },
            RegistryModification { path: "HKEY_CURRENT_USER\\Software\\Microsoft\\Windows\\DWM", key: "EnableAeroPeek", value: RegistryKeyValue::Dword(1) },
            RegistryModification { path: "HKEY_CURRENT_USER\\Software\\Microsoft\\Windows\\CurrentVersion\\Explorer\\Advanced", key: "ExtendedUIHoverTime", value: RegistryKeyValue::Dword(400) },
            RegistryModification { path: "HKEY_CURRENT_USER\\Control Panel\\Desktop", key: "SmoothScroll", value: RegistryKeyValue::Dword(1) },
            RegistryModification { path: "HKEY_CURRENT_USER\\Control Panel\\Desktop", key: "FontSmoothing", value: RegistryKeyValue::Dword(2) },
            RegistryModification { path: "HKEY_CURRENT_USER\\Control Panel\\Cursors", key: "CursorShadow", value: RegistryKeyValue::Dword(1) },
            RegistryModification { path: "HKEY_CURRENT_USER\\Software\\Microsoft\\Windows\\CurrentVersion\\Themes\\Personalize", key: "EnableTransparentGlass", value: RegistryKeyValue::Dword(1) },
            RegistryModification { path: "HKEY_CURRENT_USER\\Software\\Microsoft\\Windows\\CurrentVersion\\Explorer\\Advanced", key: "TaskbarAnimations", value: RegistryKeyValue::Dword(1) },
            RegistryModification { path: "HKEY_CURRENT_USER\\Software\\Microsoft\\Windows\\DWM", key: "AlwaysHibernateThumbnails", value: RegistryKeyValue::Dword(1) },
            RegistryModification { path: "HKEY_CURRENT_USER\\Software\\Microsoft\\Windows\\CurrentVersion\\Explorer\\Advanced", key: "ListviewAlphaSelect", value: RegistryKeyValue::Dword(1) },
            RegistryModification { path: "HKEY_CURRENT_USER\\Software\\Microsoft\\Windows\\CurrentVersion\\Explorer\\Advanced", key: "ListviewShadow", value: RegistryKeyValue::Dword(1) },
        ]),
        (TweakOption::Enabled(true), vec![
            RegistryModification { path: "HKEY_CURRENT_USER\\Software\\Microsoft\\Windows\\CurrentVersion\\Explorer\\VisualEffects", key: "VisualFXSetting", value: RegistryKeyValue::Dword(2) },
            RegistryModification { path: "HKEY_CURRENT_USER\\Control Panel\\Desktop\\WindowMetrics", key: "MinAnimate", value: RegistryKeyValue::Dword(0) },
            RegistryModification { path: "HKEY_CURRENT_USER\\Control Panel\\Desktop", key: "UserPreferencesMask", value: RegistryKeyValue::Binary(vec![144u8, 18u8, 3u8, 128u8, 16u8, 0u8, 0u8, 0u8]) },
            RegistryModification { path: "HKEY_CURRENT_USER\\Software\\Microsoft\\Windows\\DWM", key: "EnableAeroPeek", value: RegistryKeyValue::Dword(0) },
            RegistryModification { path: "HKEY_CURRENT_USER\\Software\\Microsoft\\Windows\\CurrentVersion\\Explorer\\Advanced", key: "ExtendedUIHoverTime", value: RegistryKeyValue::Dword(0) },
            RegistryModification { path: "HKEY_CURRENT_USER\\Control Panel\\Desktop", key: "SmoothScroll", value: RegistryKeyValue::Dword(0) },
            RegistryModification { path: "HKEY_CURRENT_USER\\Control Panel\\Desktop", key: "FontSmoothing", value: RegistryKeyValue::Dword(0) },
            RegistryModification { path: "HKEY_CURRENT_USER\\Control Panel\\Cursors", key: "CursorShadow", value: RegistryKeyValue::Dword(0) },
            RegistryModification { path: "HKEY_CURRENT_USER\\Software\\Microsoft\\Windows\\CurrentVersion\\Themes\\Personalize", key: "EnableTransparentGlass", value: RegistryKeyValue::Dword(0) },
            RegistryModification { path: "HKEY_CURRENT_USER\\Software\\Microsoft\\Windows\\CurrentVersion\\Explorer\\Advanced", key: "TaskbarAnimations", value: RegistryKeyValue::Dword(0) },
            RegistryModification { path: "HKEY_CURRENT_USER\\Software\\Microsoft\\Windows\\DWM", key: "AlwaysHibernateThumbnails", value: RegistryKeyValue::Dword(0) },
            RegistryModification { path: "HKEY_CURRENT_USER\\Software\\Microsoft\\Windows\\CurrentVersion\\Explorer\\Advanced", key: "ListviewAlphaSelect", value: RegistryKeyValue::Dword(0) },
            RegistryModification { path: "HKEY_CURRENT_USER\\Software\\Microsoft\\Windows\\CurrentVersion\\Explorer\\Advanced", key: "ListviewShadow", value: RegistryKeyValue::Dword(0) },
        ]),
    ];
    proof {
        lemma_indexed_from_identity(options@);
        assert(table_view(options@) =~~= high_performance_visual_settings_table());
        assert(entry_keys(options@) =~= seq![OptionView::Enabled(false), OptionView::Enabled(true)]);
    }
    let r = Tweak::registry_tweak(
        "Visual Performance Settings",
        HIGH_PERFORMANCE_VISUAL_SETTINGS_DESCRIPTION,
        TweakCategory::Graphics,
        RegistryTweak { id: TweakId::HighPerformanceVisualSettings, options: registry_options_from(options) },
        false,
    );
    proof {
        reveal(is_high_performance_visual_settings);
    }
    r
}

/// The description of the "Cache Splitting" tweak.
pub const SPLIT_LARGE_CACHES_DESCRIPTION: &'static str = "Controls how Windows handles large memory caches in kernel mode. When enabled:\n• Splits large kernel caches into smaller segments\n• Can improve performance on systems with >32GB RAM\n• Reduces cache contention in multi-core systems\n• May improve memory allocation efficiency\nBest used on high-performance systems running memory-intensive workloads. Not recommended for systems with less than 16GB RAM as it can increase memory overhead.";

/// The option table of the "Cache Splitting" tweak: each option with the registry
/// values it writes, in order.
pub open spec fn split_large_caches_table() -> Seq<(OptionView, Seq<ModificationView>)> {
    seq![
        (OptionView::Enabled(false), seq![
            set_dword("HKEY_LOCAL_MACHINE\\SYSTEM\\CurrentControlSet\\Control\\Session Manager\\kernel", "SplitLargeCaches", 0),
        ]),
        (OptionView::Enabled(true), seq![
            set_dword("HKEY_LOCAL_MACHINE\\SYSTEM\\CurrentControlSet\\Control\\Session Manager\\kernel", "SplitLargeCaches", 1),
        ]),
    ]
}

/// The "Cache Splitting" tweak as `split_large_caches` builds it.
#[verifier::opaque]
pub open spec fn is_split_large_caches(t: Tweak) -> bool {
    &&& fresh_tweak(t, "Cache Splitting", SPLIT_LARGE_CACHES_DESCRIPTION@, TweakCategory::Memory, true)
    &&& keyed_tweak(t, seq![OptionView::Enabled(false), OptionView::Enabled(true)])
    &&& registry_table(t, TweakId::SplitLargeCaches, split_large_caches_table())
}

/// Builds the "Cache Splitting" tweak.
pub fn split_large_caches() -> (r: Tweak)
    ensures
        is_split_large_caches(r),
{
    let options = vec![
        (TweakOption::Enabled(false), vec![
            RegistryModification { path: "HKEY_LOCAL_MACHINE\\SYSTEM\\CurrentControlSet\\Control\\Session Manager\\kernel", key: "SplitLargeCaches", value: RegistryKeyValue::Dword(0) },
        ]),
        (TweakOption::Enabled(true), vec![
            RegistryModification { path: "HKEY_LOCAL_MACHINE\\SYSTEM\\CurrentControlSet\\Control\\Session Manager\\kernel", key: "SplitLargeCaches", value: RegistryKeyValue::Dword(1) },
        ]),
    ];
    proof {
        lemma_indexed_from_identity(options@);
        assert(table_view(options@) =~~= split_large_caches_table());
        assert(entry_keys(options@) =~= seq![OptionView::Enabled(false), OptionView::Enabled(true)]);
    }
    let r = Tweak::registry_tweak(
        "Cache Splitting",
        SPLIT_LARGE_CACHES_DESCRIPTION,
        TweakCategory::Memory,
        RegistryTweak { id: TweakId::SplitLargeCaches, options: registry_options_from(options) },
        true,
    );
    proof {
        reveal(is_split_large_caches);
    }
    r
}

/// The description of the "Protected Network Services" tweak.
pub const DISABLE_PROTECTED_SERVICES_DESCRIPTION: &'static str = "Controls core Windows networking services that are normally protected from being disabled. Affected services:\n• DoSvc (Delivery Optimization): P2P Windows Updates\n• DHCP: Network address assignment\n• NCB: Network Connection Broker\n• Netprofm: Network List Service\n• NSI: Network Store Interface\n• RmSvc: Radio Management\n\nWARNING: Disabling these services will break:\n• Network connectivity (both wired and wireless)\n• Windows Update functionality\n• Network discovery features";

/// The option table of the "Protected Network Services" tweak: each option with the registry
/// values it writes, in order.
pub open spec fn disable_protected_services_table() -> Seq<(OptionView, Seq<ModificationView>)> {
    seq![
        (OptionView::Enabled(false), seq![
            set_dword("HKEY_LOCAL_MACHINE\\SYSTEM\\CurrentControlSet\\Services\\DoSvc", "Start", 3),
            set_dword("HKEY_LOCAL_MACHINE\\SYSTEM\\CurrentControlSet\\Services\\Dhcp", "Start", 2),
            set_dword("HKEY_LOCAL_MACHINE\\SYSTEM\\CurrentControlSet\\Services\\NcbService", "Start", 2),
            set_dword("HKEY_LOCAL_MACHINE\\SYSTEM\\CurrentControlSet\\Services\\netprofm", "Start", 2),
            set_dword("HKEY_LOCAL_MACHINE\\SYSTEM\\CurrentControlSet\\Services\\nsi", "Start", 2),
            set_dword("HKEY_LOCAL_MACHINE\\SYSTEM\\CurrentControlSet\\Services\\RmSvc", "Start", 2),
        ]),
        (OptionView::Enabled(true), seq![
            set_dword("HKEY_LOCAL_MACHINE\\SYSTEM\\CurrentControlSet\\Services\\DoSvc", "Start", 4),
            set_dword("HKEY_LOCAL_MACHINE\\SYSTEM\\CurrentControlSet\\Services\\Dhcp", "Start", 4),
            set_dword("HKEY_LOCAL_MACHINE\\SYSTEM\\CurrentControlSet\\Services\\NcbService", "Start", 4),
            set_dword("HKEY_LOCAL_MACHINE\\SYSTEM\\CurrentControlSet\\Services\\netprofm", "Start", 4),
            set_dword("HKEY_LOCAL_MACHINE\\SYSTEM\\CurrentControlSet\\Services\\nsi", "Start", 4),
            set_dword("HKEY_LOCAL_MACHINE\\SYSTEM\\CurrentControlSet\\Services\\RmSvc", "Start", 4),
        ]),
    ]
}

/// The "Protected Network Services" tweak as `disable_protected_services` builds it.
#[verifier::opaque]
pub open spec fn is_disable_protected_services(t: Tweak) -> bool {
    &&& fresh_tweak(t, "Protected Network Services", DISABLE_PROTECTED_SERVICES_DESCRIPTION@, TweakCategory::Services, true)
    &&& keyed_tweak(t, seq![OptionView::Enabled(false), OptionView::Enabled(true)])
    &&& registry_table(t, TweakId::DisableProtectedServices, disable_protected_services_table())
}

/// Builds the "Protected Network Services" tweak.
pub fn disable_protected_services() -> (r: Tweak)
    ensures
        is_disable_protected_services(r),
{
    let options = vec![
        (TweakOption::Enabled(false), vec![
            RegistryModification { path: "HKEY_LOCAL_MACHINE\\SYSTEM\\CurrentControlSet\\Services\\DoSvc", key: "Start", value: RegistryKeyValue::Dword(3) },
            RegistryModification { path: "HKEY_LOCAL_MACHINE\\SYSTEM\\CurrentControlSet\\Services\\Dhcp", key: "Start", value: RegistryKeyValue::Dword(2) },
            RegistryModification { path: "HKEY_LOCAL_MACHINE\\SYSTEM\\CurrentControlSet\\Services\\NcbService", key: "Start", value: RegistryKeyValue::Dword(2) },
            RegistryModification { path: "HKEY_LOCAL_MACHINE\\SYSTEM\\CurrentControlSet\\Services\\netprofm", key: "Start", value: RegistryKeyValue::Dword(2) },
            RegistryModification { path: "HKEY_LOCAL_MACHINE\\SYSTEM\\CurrentControlSet\\Services\\nsi", key: "Start", value: RegistryKeyValue::Dword(2) },
            RegistryModification { path: "HKEY_LOCAL_MACHINE\\SYSTEM\\CurrentControlSet\\Services\\RmSvc", key: "Start", value: RegistryKeyValue::Dword(2) },
        ]),
        (TweakOption::Enabled(true), vec![
            RegistryModification { path: "HKEY_LOCAL_MACHINE\\SYSTEM\\CurrentControlSet\\Services\\DoSvc", key: "Start", value: RegistryKeyValue::Dword(4) },
            RegistryModification { path: "HKEY_LOCAL_MACHINE\\SYSTEM\\CurrentControlSet\\Services\\Dhcp", key: "Start", value: RegistryKeyValue::Dword(4) },
            RegistryModification { path: "HKEY_LOCAL_MACHINE\\SYSTEM\\CurrentControlSet\\Services\\NcbService", key: "Start", value: RegistryKeyValue::Dword(4) },
            RegistryModification { path: "HKEY_LOCAL_MACHINE\\SYSTEM\\CurrentControlSet\\Services\\netprofm", key: "Start", value: RegistryKeyValue::Dword(4) },
            RegistryModification { path: "HKEY_LOCAL_MACHINE\\SYSTEM\\CurrentControlSet\\Services\\nsi", key: "Start", value: RegistryKeyValue::Dword(4) },
            RegistryModification { path: "HKEY_LOCAL_MACHINE\\SYSTEM\\CurrentControlSet\\Services\\RmSvc", key: "Start", value: RegistryKeyValue::Dword(4) },
        ]),
    ];
    proof {
        lemma_indexed_from_identity(options@);
        assert(table_view(options@) =~~= disable_protected_services_table());
        assert(entry_keys(options@) =~= seq![OptionView::Enabled(false), OptionView::Enabled(true)]);
    }
    let r = Tweak::registry_tweak(
        "Protected Network Services",
        DISABLE_PROTECTED_SERVICES_DESCRIPTION,
        TweakCategory::Services,
        RegistryTweak { id: TweakId::DisableProtectedServices, options: registry_options_from(options) },
        true,
    );
    proof {
        reveal(is_disable_protected_services);
    }
    r
}

/// The description of the "Security Accounts Manager" tweak.
pub const DISABLE_SECURITY_ACCOUNTS_MANAGER_DESCRIPTION: &'static str = "Controls the Security Accounts Manager (SAM) service responsible for user account management.";

/// The option table of the "Security Accounts Manager" tweak: each option with the registry
/// values it writes, in order.
pub open spec fn disable_security_accounts_manager_table() -> Seq<(OptionView, Seq<ModificationView>)> {
    seq![
        (OptionView::Enabled(false), seq![
            set_dword("HKEY_LOCAL_MACHINE\\SYSTEM\\CurrentControlSet\\Services\\SamSs", "Start", 2),
        ]),
        (OptionView::Enabled(true), seq![
            set_dword("HKEY_LOCAL_MACHINE\\SYSTEM\\CurrentControlSet\\Services\\SamSs", "Start", 4),
        ]),
    ]
}

/// The "Security Accounts Manager" tweak as `disable_security_accounts_manager` builds it.
#[verifier::opaque]
pub open spec fn is_disable_security_accounts_manager(t: Tweak) -> bool {
    &&& fresh_tweak(t, "Security Accounts Manager", DISABLE_SECURITY_ACCOUNTS_MANAGER_DESCRIPTION@, TweakCategory::Services, true)
    &&& keyed_tweak(t, seq![OptionView::Enabled(false), OptionView::Enabled(true)])
    &&& registry_table(t, TweakId::DisableSecurityAccountsManager, disable_security_accounts_manager_table())
}

/// Builds the "Security Accounts Manager" tweak.
pub fn disable_security_accounts_manager() -> (r: Tweak)
    ensures
        is_disable_security_accounts_manager(r),
{
    let options = vec![
        (TweakOption::Enabled(false), vec![
            RegistryModification { path: "HKEY_LOCAL_MACHINE\\SYSTEM\\CurrentControlSet\\Services\\SamSs", key: "Start", value: RegistryKeyValue::Dword(2) },
        ]),
        (TweakOption::Enabled(true), vec![
            RegistryModification { path: "HKEY_LOCAL_MACHINE\\SYSTEM\\CurrentControlSet\\Services\\SamSs", key: "Start", value: RegistryKeyValue::Dword(4) },
        ]),
    ];
    proof {
        lemma_indexed_from_identity(options@);
        assert(table_view(options@) =~~= disable_security_accounts_manager_table());
        assert(entry_keys(options@) =~= seq![OptionView::Enabled(false), OptionView::Enabled(true)]);
    }
    let r = Tweak::registry_tweak(
        "Security Accounts Manager",
        DISABLE_SECURITY_ACCOUNTS_MANAGER_DESCRIPTION,
        TweakCategory::Services,
        RegistryTweak { id: TweakId::DisableSecurityAccountsManager, options: registry_options_from(options) },
        true,
    );
    proof {
        reveal(is_disable_security_accounts_manager);
    }
    r
}

/// The description of the "Memory Page Combining" tweak.
pub const DISABLE_PAGING_COMBINING_DESCRIPTION: &'static str = "Controls Windows Memory Compression and Page Combining features that optimize RAM usage. When disabled:\n• Prevents Windows from combining duplicate memory pages\n• Disables memory compression for less-used pages\n• May reduce CPU usage from compression operations\n• Increases actual RAM usage\nBest used on systems with abundant RAM (32GB+) where memory compression overhead is undesirable. Not recommended for systems with limited RAM as it can increase page file usage.";

/// The option table of the "Memory Page Combining" tweak: each option with the registry
/// values it writes, in order.
pub open spec fn disable_paging_combining_table() -> Seq<(OptionView, Seq<ModificationView>)> {
    seq![
        (OptionView::Enabled(false), seq![
            set_dword("HKEY_LOCAL_MACHINE\\SYSTEM\\CurrentControlSet\\Control\\Session Manager\\Memory Management", "DisablePagingCombining", 0),
        ]),
        (OptionView::Enabled(true), seq![
            set_dword("HKEY_LOCAL_MACHINE\\SYSTEM\\CurrentControlSet\\Control\\Session Manager\\Memory Management", "DisablePagingCombining", 1),
        ]),
    ]
}

/// The "Memory Page Combining" tweak as `disable_paging_combining` builds it.
#[verifier::opaque]
pub open spec fn is_disable_paging_combining(t: Tweak) -> bool {
    &&& fresh_tweak(t, "Memory Page Combining", DISABLE_PAGING_COMBINING_DESCRIPTION@, TweakCategory::Memory, true)
    &&& keyed_tweak(t, seq![OptionView::Enabled(false), OptionView::Enabled(true)])
    &&& registry_table(t, TweakId::DisablePagingCombining, disable_paging_combining_table())
}

/// Builds the "Memory Page Combining" tweak.
pub fn disable_paging_combining() -> (r: Tweak)
    ensures
        is_disable_paging_combining(r),
{
    let options = vec![
        (TweakOption::Enabled(false), vec![
            RegistryModification { path: "HKEY_LOCAL_MACHINE\\SYSTEM\\CurrentControlSet\\Control\\Session Manager\\Memory Management", key: "DisablePagingCombining", value: RegistryKeyValue::Dword(0) },
        ]),
        (TweakOption::Enabled(true), vec![
            RegistryModification { path: "HKEY_LOCAL_MACHINE\\SYSTEM\\CurrentControlSet\\Control\\Session Manager\\Memory Management", key: "DisablePagingCombining", value: RegistryKeyValue::Dword(1) },
        ]),
    ];
    proof {
        lemma_indexed_from_identity(options@);
        assert(table_view(options@) =~~= disable_paging_combining_table());
        assert(entry_keys(options@) =~= seq![OptionView::Enabled(false), OptionView::Enabled(true)]);
    }
    let r = Tweak::registry_tweak(
        "Memory Page Combining",
        DISABLE_PAGING_COMBINING_DESCRIPTION,
        TweakCategory::Memory,
        RegistryTweak { id: TweakId::DisablePagingCombining, options: registry_options_from(options) },
        true,
    );
    proof {
        reveal(is_disable_paging_combining);
    }
    r
}

/// The description of the "Multimedia Class Scheduler Service" tweak.
pub const ENABLE_MCSSS_DESCRIPTION: &'static str = "Controls the Multimedia Class Scheduler Service (MMCSS) that manages CPU priority for multimedia applications. This service:\n• Provides prioritized CPU scheduling for audio and video applications\n• Reduces audio glitches and video stuttering\n• Helps maintain consistent multimedia performance\nAvailable modes:\n• Auto (3): Service starts only when needed\n• Enabled (2): Service runs constantly, reducing startup latency\n• Disabled (4): No multimedia prioritization\nMost beneficial for:\n• Audio production workstations\n• Video editing systems\n• Gaming systems requiring consistent audio\n• Real-time media streaming\nNote: Enabling permanently may slightly increase CPU usage but provides more consistent multimedia performance.";

/// The option table of the "Multimedia Class Scheduler Service" tweak: each option with the registry
/// values it writes, in order.
pub open spec fn enable_mcsss_table() -> Seq<(OptionView, Seq<ModificationView>)> {
    seq![
        (OptionView::Enabled(true), seq![
            set_dword("HKEY_LOCAL_MACHINE\\SYSTEM\\CurrentControlSet\\Services\\Audiosrv", "Start", 2),
            set_dword("HKEY_LOCAL_MACHINE\\SYSTEM\\CurrentControlSet\\Services\\MMCSS", "Start", 2),
            set_dword("HKEY_LOCAL_MACHINE\\SOFTWARE\\Microsoft\\Windows NT\\CurrentVersion\\Multimedia\\SystemProfile", "NetworkThrottlingIndex", 4294967295),
            set_dword("HKEY_LOCAL_MACHINE\\SOFTWARE\\Microsoft\\Windows NT\\CurrentVersion\\Multimedia\\SystemProfile", "SystemResponsiveness", 0),
        ]),
        (OptionView::Enabled(false), seq![
            set_dword("HKEY_LOCAL_MACHINE\\SYSTEM\\CurrentControlSet\\Services\\Audiosrv", "Start", 4),
            set_dword("HKEY_LOCAL_MACHINE\\SYSTEM\\CurrentControlSet\\Services\\MMCSS", "Start", 4),
        ]),
    ]
}

/// The "Multimedia Class Scheduler Service" tweak as `enable_mcsss` builds it.
#[verifier::opaque]
pub open spec fn is_enable_mcsss(t: Tweak) -> bool {
    &&& fresh_tweak(t, "Multimedia Class Scheduler Service", ENABLE_MCSSS_DESCRIPTION@, TweakCategory::Services, true)
    &&& keyed_tweak(t, seq![OptionView::Enabled(true), OptionView::Enabled(false)])
    &&& registry_table(t, TweakId::EnableMcsss, enable_mcsss_table())
}

/// Builds the "Multimedia Class Scheduler Service" tweak.
pub fn enable_mcsss() -> (r: Tweak)
    ensures
        is_enable_mcsss(r),
{
    let options = vec![
        (TweakOption::Enabled(true), vec![
            RegistryModification { path: "HKEY_LOCAL_MACHINE\\SYSTEM\\CurrentControlSet\\Services\\Audiosrv", key: "Start", value: RegistryKeyValue::Dword(2) },
            RegistryModification { path: "HKEY_LOCAL_MACHINE\\SYSTEM\\CurrentControlSet\\Services\\MMCSS", key: "Start", value: RegistryKeyValue::Dword(2) },
            RegistryModification { path: "HKEY_LOCAL_MACHINE\\SOFTWARE\\Microsoft\\Windows NT\\CurrentVersion\\Multimedia\\SystemProfile", key: "NetworkThrottlingIndex", value: RegistryKeyValue::Dword(4294967295) },
            RegistryModification { path: "HKEY_LOCAL_MACHINE\\SOFTWARE\\Microsoft\\Windows NT\\CurrentVersion\\Multimedia\\SystemProfile", key: "SystemResponsiveness", value: RegistryKeyValue::Dword(0) },
        ]),
        (TweakOption::Enabled(false), vec![
            RegistryModification { path: "HKEY_LOCAL_MACHINE\\SYSTEM\\CurrentControlSet\\Services\\Audiosrv", key: "Start", value: RegistryKeyValue::Dword(4) },
            RegistryModification { path: "HKEY_LOCAL_MACHINE\\SYSTEM\\CurrentControlSet\\Services\\MMCSS", key: "Start", value: RegistryKeyValue::Dword(4) },
        ]),
    ];
    proof {
        lemma_indexed_from_identity(options@);
        assert(table_view(options@) =~~= enable_mcsss_table());
        assert(entry_keys(options@) =~= seq![OptionView::Enabled(true), OptionView::Enabled(false)]);
    }
    let r = Tweak::registry_tweak(
        "Multimedia Class Scheduler Service",
        ENABLE_MCSSS_DESCRIPTION,
        TweakCategory::Services,
        RegistryTweak { id: TweakId::EnableMcsss, options: registry_options_from(options) },
        true,
    );
    proof {
        reveal(is_enable_mcsss);
    }
    r
}

/// The identifiers of the registry tweaks, in the order the tool lists them.
pub open spec fn registry_tweak_ids() -> Seq<TweakId> {
    seq![TweakId::LargeSystemCache, TweakId::SystemResponsiveness, TweakId::DisableHWAcceleration, TweakId::Win32PrioritySeparation, TweakId::DisableCoreParking, TweakId::NoLowDiskSpaceChecks, TweakId::DisableWindowsErrorReporting, TweakId::DontVerifyRandomDrivers, TweakId::DisableDriverPaging, TweakId::DisablePrefetcher, TweakId::DisableApplicationTelemetry, TweakId::ThreadDpcDisable, TweakId::SvcHostSplitThreshold, TweakId::DisableWindowsDefender, TweakId::DisablePageFileEncryption, TweakId::DisableIntelTSX, TweakId::DisableWindowsMaintenance, TweakId::AdditionalKernelWorkerThreads, TweakId::SpeculativeExecutionMitigations, TweakId::HighPerformanceVisualSettings, TweakId::SplitLargeCaches, TweakId::DisableProtectedServices, TweakId::DisablePagingCombining, TweakId::DisableSecurityAccountsManager, TweakId::EnableMcsss, TweakId::AlchemyKernelTweak]
}

/// Every registry tweak, with its identifier, in the order the tool lists
/// them, for a machine with `logical_processors` logical processors.
pub fn all_registry_tweaks(logical_processors: u32) -> (r: Vec<(TweakId, Tweak)>)
    requires
        logical_processors <= 0x7FFF_FFFF,
    ensures
        table_ids(r@) == registry_tweak_ids(),
        forall|i: int| 0 <= i < r.len() ==> registry_listed_tweak(#[trigger] r@[i].0, r@[i].1, logical_processors),
{
    let mut r: Vec<(TweakId, Tweak)> = Vec::new();
    push_registry(&mut r, TweakId::LargeSystemCache, enable_large_system_cache(), Ghost(logical_processors));
    push_registry(&mut r, TweakId::SystemResponsiveness, system_responsiveness(), Ghost(logical_processors));
    push_registry(&mut r, TweakId::DisableHWAcceleration, disable_hw_acceleration(), Ghost(logical_processors));
    push_registry(&mut r, TweakId::Win32PrioritySeparation, win32_priority_separation(), Ghost(logical_processors));
    push_registry(&mut r, TweakId::DisableCoreParking, disable_core_parking(), Ghost(logical_processors));
    push_registry(&mut r, TweakId::NoLowDiskSpaceChecks, disable_low_disk_space_checks(), Ghost(logical_processors));
    push_registry(&mut r, TweakId::DisableWindowsErrorReporting, disable_windows_error_reporting(), Ghost(logical_processors));
    push_registry(&mut r, TweakId::DontVerifyRandomDrivers, dont_verify_random_drivers(), Ghost(logical_processors));
    push_registry(&mut r, TweakId::DisableDriverPaging, disable_driver_paging(), Ghost(logical_processors));
    push_registry(&mut r, TweakId::DisablePrefetcher, configure_prefetcher_service(), Ghost(logical_processors));
    push_registry(&mut r, TweakId::DisableApplicationTelemetry, disable_application_telemetry(), Ghost(logical_processors));
    push_registry(&mut r, TweakId::ThreadDpcDisable, thread_dpc_disable(), Ghost(logical_processors));
    push_registry(&mut r, TweakId::SvcHostSplitThreshold, svc_host_split_threshold(), Ghost(logical_processors));
    push_registry(&mut r, TweakId::DisableWindowsDefender, disable_windows_defender(), Ghost(logical_processors));
    push_registry(&mut r, TweakId::DisablePageFileEncryption, disable_page_file_encryption(), Ghost(logical_processors));
    push_registry(&mut r, TweakId::DisableIntelTSX, disable_intel_tsx(), Ghost(logical_processors));
    push_registry(&mut r, TweakId::DisableWindowsMaintenance, disable_windows_maintenance(), Ghost(logical_processors));
    push_registry(&mut r, TweakId::AdditionalKernelWorkerThreads, additional_kernel_worker_threads(logical_processors), Ghost(logical_processors));
    push_registry(&mut r, TweakId::SpeculativeExecutionMitigations, disable_speculative_execution_mitigations(), Ghost(logical_processors));
    push_registry(&mut r, TweakId::HighPerformanceVisualSettings, high_performance_visual_settings(), Ghost(logical_processors));
    push_registry(&mut r, TweakId::SplitLargeCaches, split_large_caches(), Ghost(logical_processors));
    push_registry(&mut r, TweakId::DisableProtectedServices, disable_protected_services(), Ghost(logical_processors));
    push_registry(&mut r, TweakId::DisablePagingCombining, disable_paging_combining(), Ghost(logical_processors));
    push_registry(&mut r, TweakId::DisableSecurityAccountsManager, disable_security_accounts_manager(), Ghost(logical_processors));
    push_registry(&mut r, TweakId::EnableMcsss, enable_mcsss(), Ghost(logical_processors));
    push_registry(&mut r, TweakId::AlchemyKernelTweak, alchemy_kernel_tweak(), Ghost(logical_processors));
    assert(table_ids(r@) =~= seq![TweakId::LargeSystemCache, TweakId::SystemResponsiveness, TweakId::DisableHWAcceleration, TweakId::Win32PrioritySeparation, TweakId::DisableCoreParking, TweakId::NoLowDiskSpaceChecks, TweakId::DisableWindowsErrorReporting, TweakId::DontVerifyRandomDrivers, TweakId::DisableDriverPaging, TweakId::DisablePrefetcher, TweakId::DisableApplicationTelemetry, TweakId::ThreadDpcDisable, TweakId::SvcHostSplitThreshold, TweakId::DisableWindowsDefender, TweakId::DisablePageFileEncryption, TweakId::DisableIntelTSX, TweakId::DisableWindowsMaintenance, TweakId::AdditionalKernelWorkerThreads, TweakId::SpeculativeExecutionMitigations, TweakId::HighPerformanceVisualSettings, TweakId::SplitLargeCaches, TweakId::DisableProtectedServices, TweakId::DisablePagingCombining, TweakId::DisableSecurityAccountsManager, TweakId::EnableMcsss, TweakId::AlchemyKernelTweak]);
    r
}

} // verus!
