//! The PowerShell tweaks: each option runs a script, and a read script
//! prints the current state.
pub mod method;
pub mod script;

use vstd::prelude::*;
use crate::indexed::{entry_keys, lemma_keys_distinct_from};
use crate::tweaks::{
    fresh_tweak, keyed_tweak, powershell_table, OptionView, Tweak, TweakCategory, TweakId,
    TweakMethodKind, TweakOption,
};
use crate::tweaks::catalog::{fixed_tweak, push_fixed};
use crate::tweaks::table::table_ids;
use method::{actions_view, first_state_match, PowershellAction, PowershellTweak};
use crate::text::{contains_seq, trimmed};

verus! {

/// The description of the "Process Idle Tasks" tweak.
pub const PROCESS_IDLE_TASKS_DESCRIPTION: &'static str = "Runs the Process Idle Tasks command to optimize system performance by processing idle tasks and background maintenance activities.";

/// The script that runs the "Process Idle Tasks" tweak.
pub const PROCESS_IDLE_TASKS_RUN_SCRIPT: &'static str = "rundll32.exe advapi32.dll,ProcessIdleTasks";

/// The actions of the "Process Idle Tasks" tweak: each option with its script and the
/// text its state prints, in order.
pub open spec fn process_idle_tasks_table() -> Seq<(OptionView, PowershellAction)> {
    seq![
        (OptionView::Run, PowershellAction { script: PROCESS_IDLE_TASKS_RUN_SCRIPT, state: None }),
    ]
}

/// The "Process Idle Tasks" tweak as `process_idle_tasks` builds it.
#[verifier::opaque]
pub open spec fn is_process_idle_tasks(t: Tweak) -> bool {
    &&& fresh_tweak(t, "Process Idle Tasks", PROCESS_IDLE_TASKS_DESCRIPTION@, TweakCategory::System, false)
    &&& keyed_tweak(t, seq![OptionView::Run])
    &&& powershell_table(t, TweakId::ProcessIdleTasks, None, process_idle_tasks_table())
}

/// Builds the "Process Idle Tasks" tweak.
pub fn process_idle_tasks() -> (r: Tweak)
    ensures
        is_process_idle_tasks(r),
{
    let options = vec![
        (TweakOption::Run, PowershellAction { script: PROCESS_IDLE_TASKS_RUN_SCRIPT, state: None }),
    ];
    proof {
        assert(actions_view(options@) =~= process_idle_tasks_table());
        assert(entry_keys(options@) =~= seq![OptionView::Run]);
        lemma_keys_distinct_from(options@, seq![OptionView::Run]);
    }
    let r = Tweak::powershell_tweak(
        "Process Idle Tasks",
        PROCESS_IDLE_TASKS_DESCRIPTION,
        TweakCategory::System,
        PowershellTweak { id: TweakId::ProcessIdleTasks, read_script: None, options },
        false,
    );
    proof {
        reveal(is_process_idle_tasks);
    }
    r
}

/// The description of the "Disable Dynamic Tick" tweak.
pub const DISABLE_HPET_DESCRIPTION: &'static str = "Disables the dynamic tick feature, which normally reduces timer interrupts during idle periods to conserve power. By disabling dynamic tick, the system maintains a constant rate of timer interrupts, improving performance in real-time applications by reducing latency and jitter. This tweak is useful in scenarios where consistent, low-latency processing is required, but it may increase power consumption as the CPU will not enter low-power states as frequently.";

/// The script that prints the current state of the "Disable Dynamic Tick" tweak.
pub const DISABLE_HPET_READ_SCRIPT: &'static str = "bcdedit /enum | Select-String \"useplatformclock\" | ForEach-Object {\n                    if (($_ -split '\\s+')[1] -eq 'Yes') {\n                        'True'\n                    } else {\n                        'False'\n                    }\n                } | Select-Object -Unique";

/// The script that turns off the "Disable Dynamic Tick" tweak.
pub const DISABLE_HPET_DISABLED_SCRIPT: &'static str = "\n                                bcdedit /set useplatformclock true\n                                bcdedit /set disabledynamictick no\n                            ";

/// The script that turns on the "Disable Dynamic Tick" tweak.
pub const DISABLE_HPET_ENABLED_SCRIPT: &'static str = "\n                                bcdedit /deletevalue useplatformclock\n                                bcdedit /set disabledynamictick yes\n                            ";

/// The actions of the "Disable Dynamic Tick" tweak: each option with its script and the
/// text its state prints, in order.
pub open spec fn disable_hpet_table() -> Seq<(OptionView, PowershellAction)> {
    seq![
        (OptionView::Enabled(false), PowershellAction { script: DISABLE_HPET_DISABLED_SCRIPT, state: Some("True") }),
        (OptionView::Enabled(true), PowershellAction { script: DISABLE_HPET_ENABLED_SCRIPT, state: Some("False") }),
    ]
}

/// The "Disable Dynamic Tick" tweak as `disable_hpet` builds it.
#[verifier::opaque]
pub open spec fn is_disable_hpet(t: Tweak) -> bool {
    &&& fresh_tweak(t, "Disable Dynamic Tick", DISABLE_HPET_DESCRIPTION@, TweakCategory::System, true)
    &&& keyed_tweak(t, seq![OptionView::Enabled(false), OptionView::Enabled(true)])
    &&& powershell_table(t, TweakId::DisableHPET, Some(DISABLE_HPET_READ_SCRIPT), disable_hpet_table())
}

/// Builds the "Disable Dynamic Tick" tweak.
pub fn disable_hpet() -> (r: Tweak)
    ensures
        is_disable_hpet(r),
{
    let options = vec![
        (TweakOption::Enabled(false), PowershellAction { script: DISABLE_HPET_DISABLED_SCRIPT, state: Some("True") }),
        (TweakOption::Enabled(true), PowershellAction { script: DISABLE_HPET_ENABLED_SCRIPT, state: Some("False") }),
    ];
    proof {
        assert(actions_view(options@) =~= disable_hpet_table());
        assert(entry_keys(options@) =~= seq![OptionView::Enabled(false), OptionView::Enabled(true)]);
        lemma_keys_distinct_from(options@, seq![OptionView::Enabled(false), OptionView::Enabled(true)]);
    }
    let r = Tweak::powershell_tweak(
        "Disable Dynamic Tick",
        DISABLE_HPET_DESCRIPTION,
        TweakCategory::System,
        PowershellTweak { id: TweakId::DisableHPET, read_script: Some(DISABLE_HPET_READ_SCRIPT), options },
        true,
    );
    proof {
        reveal(is_disable_hpet);
    }
    r
}

/// The description of the "Disable RAM Compression" tweak.
pub const DISABLE_RAM_COMPRESSION_DESCRIPTION: &'static str = "Disables the RAM compression feature in Windows to potentially improve system performance by reducing CPU overhead. This may lead to higher memory usage.";

/// The script that prints the current state of the "Disable RAM Compression" tweak.
pub const DISABLE_RAM_COMPRESSION_READ_SCRIPT: &'static str = "$ramCompression = Get-MMAgent | Select-Object -ExpandProperty MemoryCompression\n\n                if ($ramCompression -eq $true) {\n                    \"Enabled\"\n                } else {\n                    \"Disabled\"\n                }";

/// The script that turns on the "Disable RAM Compression" tweak.
pub const DISABLE_RAM_COMPRESSION_ENABLED_SCRIPT: &'static str = "Disable-MMAgent -mc";

/// The script that turns off the "Disable RAM Compression" tweak.
pub const DISABLE_RAM_COMPRESSION_DISABLED_SCRIPT: &'static str = "Enable-MMAgent -mc";

/// The actions of the "Disable RAM Compression" tweak: each option with its script and the
/// text its state prints, in order.
pub open spec fn disable_ram_compression_table() -> Seq<(OptionView, PowershellAction)> {
    seq![
        (OptionView::Enabled(true), PowershellAction { script: DISABLE_RAM_COMPRESSION_ENABLED_SCRIPT, state: Some("Disabled") }),
        (OptionView::Enabled(false), PowershellAction { script: DISABLE_RAM_COMPRESSION_DISABLED_SCRIPT, state: Some("Enabled") }),
    ]
}

/// The "Disable RAM Compression" tweak as `disable_ram_compression` builds it.
#[verifier::opaque]
pub open spec fn is_disable_ram_compression(t: Tweak) -> bool {
    &&& fresh_tweak(t, "Disable RAM Compression", DISABLE_RAM_COMPRESSION_DESCRIPTION@, TweakCategory::Memory, true)
    &&& keyed_tweak(t, seq![OptionView::Enabled(true), OptionView::Enabled(false)])
    &&& powershell_table(t, TweakId::DisableRamCompression, Some(DISABLE_RAM_COMPRESSION_READ_SCRIPT), disable_ram_compression_table())
}

/// Builds the "Disable RAM Compression" tweak.
pub fn disable_ram_compression() -> (r: Tweak)
    ensures
        is_disable_ram_compression(r),
{
    let options = vec![
        (TweakOption::Enabled(true), PowershellAction { script: DISABLE_RAM_COMPRESSION_ENABLED_SCRIPT, state: Some("Disabled") }),
        (TweakOption::Enabled(false), PowershellAction { script: DISABLE_RAM_COMPRESSION_DISABLED_SCRIPT, state: Some("Enabled") }),
    ];
    proof {
        assert(actions_view(options@) =~= disable_ram_compression_table());
        assert(entry_keys(options@) =~= seq![OptionView::Enabled(true), OptionView::Enabled(false)]);
        lemma_keys_distinct_from(options@, seq![OptionView::Enabled(true), OptionView::Enabled(false)]);
    }
    let r = Tweak::powershell_tweak(
        "Disable RAM Compression",
        DISABLE_RAM_COMPRESSION_DESCRIPTION,
        TweakCategory::Memory,
        PowershellTweak { id: TweakId::DisableRamCompression, read_script: Some(DISABLE_RAM_COMPRESSION_READ_SCRIPT), options },
        true,
    );
    proof {
        reveal(is_disable_ram_compression);
    }
    r
}

/// The description of the "Disable Local Firewall" tweak.
pub const DISABLE_LOCAL_FIREWALL_DESCRIPTION: &'static str = "Disables the local Windows Firewall for all profiles by setting the firewall state to `off`.";

/// The script that prints the current state of the "Disable Local Firewall" tweak.
pub const DISABLE_LOCAL_FIREWALL_READ_SCRIPT: &'static str = "$firewallState = netsh advfirewall show allprofiles state | Select-String \"State\" | ForEach-Object { $_.Line }\n\n                if ($firewallState -match \"off\") {\n                    \"Off\"\n                } else {\n                    \"On\"\n                }";

/// The script that turns off the "Disable Local Firewall" tweak.
pub const DISABLE_LOCAL_FIREWALL_DISABLED_SCRIPT: &'static str = "netsh advfirewall set allprofiles state on";

/// The script that turns on the "Disable Local Firewall" tweak.
pub const DISABLE_LOCAL_FIREWALL_ENABLED_SCRIPT: &'static str = "netsh advfirewall set allprofiles state off";

/// The actions of the "Disable Local Firewall" tweak: each option with its script and the
/// text its state prints, in order.
pub open spec fn disable_local_firewall_table() -> Seq<(OptionView, PowershellAction)> {
    seq![
        (OptionView::Enabled(false), PowershellAction { script: DISABLE_LOCAL_FIREWALL_DISABLED_SCRIPT, state: Some("On") }),
        (OptionView::Enabled(true), PowershellAction { script: DISABLE_LOCAL_FIREWALL_ENABLED_SCRIPT, state: Some("Off") }),
    ]
}

/// The "Disable Local Firewall" tweak as `disable_local_firewall` builds it.
#[verifier::opaque]
pub open spec fn is_disable_local_firewall(t: Tweak) -> bool {
    &&& fresh_tweak(t, "Disable Local Firewall", DISABLE_LOCAL_FIREWALL_DESCRIPTION@, TweakCategory::Security, true)
    &&& keyed_tweak(t, seq![OptionView::Enabled(false), OptionView::Enabled(true)])
    &&& powershell_table(t, TweakId::DisableLocalFirewall, Some(DISABLE_LOCAL_FIREWALL_READ_SCRIPT), disable_local_firewall_table())
}

/// Builds the "Disable Local Firewall" tweak.
pub fn disable_local_firewall() -> (r: Tweak)
    ensures
        is_disable_local_firewall(r),
{
    let options = vec![
        (TweakOption::Enabled(false), PowershellAction { script: DISABLE_LOCAL_FIREWALL_DISABLED_SCRIPT, state: Some("On") }),
        (TweakOption::Enabled(true), PowershellAction { script: DISABLE_LOCAL_FIREWALL_ENABLED_SCRIPT, state: Some("Off") }),
    ];
    proof {
        assert(actions_view(options@) =~= disable_local_firewall_table());
        assert(entry_keys(options@) =~= seq![OptionView::Enabled(false), OptionView::Enabled(true)]);
        lemma_keys_distinct_from(options@, seq![OptionView::Enabled(false), OptionView::Enabled(true)]);
    }
    let r = Tweak::powershell_tweak(
        "Disable Local Firewall",
        DISABLE_LOCAL_FIREWALL_DESCRIPTION,
        TweakCategory::Security,
        PowershellTweak { id: TweakId::DisableLocalFirewall, read_script: Some(DISABLE_LOCAL_FIREWALL_READ_SCRIPT), options },
        true,
    );
    proof {
        reveal(is_disable_local_firewall);
    }
    r
}

/// The description of the "Disable Success Auditing" tweak.
pub const DISABLE_SUCCESS_AUDITING_DESCRIPTION: &'static str = "Disables auditing of successful events across all categories, reducing the volume of event logs and system overhead. Security events in the Windows Security log are not affected.";

/// The script that prints the current state of the "Disable Success Auditing" tweak.
pub const DISABLE_SUCCESS_AUDITING_READ_SCRIPT: &'static str = "$auditSettings = AuditPol /get /category:* | Where-Object { $_ -match \"No Auditing\" }\n\n                if ($auditSettings.Count -gt 0) {\n                    \"Enabled\"\n                } else {\n                    \"Disabled\"\n                }";

/// The script that turns off the "Disable Success Auditing" tweak.
pub const DISABLE_SUCCESS_AUDITING_DISABLED_SCRIPT: &'static str = "Auditpol /set /category:* /Success:enable";

/// The script that turns on the "Disable Success Auditing" tweak.
pub const DISABLE_SUCCESS_AUDITING_ENABLED_SCRIPT: &'static str = "Auditpol /set /category:* /Success:disable";

/// The actions of the "Disable Success Auditing" tweak: each option with its script and the
/// text its state prints, in order.
pub open spec fn disable_success_auditing_table() -> Seq<(OptionView, PowershellAction)> {
    seq![
        (OptionView::Enabled(false), PowershellAction { script: DISABLE_SUCCESS_AUDITING_DISABLED_SCRIPT, state: Some("Disabled") }),
        (OptionView::Enabled(true), PowershellAction { script: DISABLE_SUCCESS_AUDITING_ENABLED_SCRIPT, state: Some("Enabled") }),
    ]
}

/// The "Disable Success Auditing" tweak as `disable_success_auditing` builds it.
#[verifier::opaque]
pub open spec fn is_disable_success_auditing(t: Tweak) -> bool {
    &&& fresh_tweak(t, "Disable Success Auditing", DISABLE_SUCCESS_AUDITING_DESCRIPTION@, TweakCategory::Security, true)
    &&& keyed_tweak(t, seq![OptionView::Enabled(false), OptionView::Enabled(true)])
    &&& powershell_table(t, TweakId::DisableSuccessAuditing, Some(DISABLE_SUCCESS_AUDITING_READ_SCRIPT), disable_success_auditing_table())
}

/// Builds the "Disable Success Auditing" tweak.
pub fn disable_success_auditing() -> (r: Tweak)
    ensures
        is_disable_success_auditing(r),
{
    let options = vec![
        (TweakOption::Enabled(false), PowershellAction { script: DISABLE_SUCCESS_AUDITING_DISABLED_SCRIPT, state: Some("Disabled") }),
        (TweakOption::Enabled(true), PowershellAction { script: DISABLE_SUCCESS_AUDITING_ENABLED_SCRIPT, state: Some("Enabled") }),
    ];
    proof {
        assert(actions_view(options@) =~= disable_success_auditing_table());
        assert(entry_keys(options@) =~= seq![OptionView::Enabled(false), OptionView::Enabled(true)]);
        lemma_keys_distinct_from(options@, seq![OptionView::Enabled(false), OptionView::Enabled(true)]);
    }
    let r = Tweak::powershell_tweak(
        "Disable Success Auditing",
        DISABLE_SUCCESS_AUDITING_DESCRIPTION,
        TweakCategory::Security,
        PowershellTweak { id: TweakId::DisableSuccessAuditing, read_script: Some(DISABLE_SUCCESS_AUDITING_READ_SCRIPT), options },
        true,
    );
    proof {
        reveal(is_disable_success_auditing);
    }
    r
}

/// The description of the "Disable Pagefile" tweak.
pub const DISABLE_PAGEFILE_DESCRIPTION: &'static str = "Disables the Windows page file, which is used as virtual memory when physical memory is full. This tweak can improve system performance by reducing disk I/O and preventing paging, but it may cause system instability or application crashes if the system runs out of memory.";

/// The script that prints the current state of the "Disable Pagefile" tweak.
pub const DISABLE_PAGEFILE_READ_SCRIPT: &'static str = "$pagefileSettings = Get-WmiObject -Class Win32_PageFileUsage | Select-Object -ExpandProperty AllocatedBaseSize\n\n                if ($pagefileSettings -eq 0) {\n                    \"Disabled\"\n                } else {\n                    \"Enabled\"\n                }";

/// The script that turns off the "Disable Pagefile" tweak.
pub const DISABLE_PAGEFILE_DISABLED_SCRIPT: &'static str = "wmic computersystem set AutomaticManagedPagefile=True";

/// The script that turns on the "Disable Pagefile" tweak.
pub const DISABLE_PAGEFILE_ENABLED_SCRIPT: &'static str = "\nwmic computersystem set AutomaticManagedPagefile=False\nwmic pagefileset delete\n";

/// The actions of the "Disable Pagefile" tweak: each option with its script and the
/// text its state prints, in order.
pub open spec fn disable_pagefile_table() -> Seq<(OptionView, PowershellAction)> {
    seq![
        (OptionView::Enabled(false), PowershellAction { script: DISABLE_PAGEFILE_DISABLED_SCRIPT, state: Some("Enabled") }),
        (OptionView::Enabled(true), PowershellAction { script: DISABLE_PAGEFILE_ENABLED_SCRIPT, state: Some("Disabled") }),
    ]
}

/// The "Disable Pagefile" tweak as `disable_pagefile` builds it.
#[verifier::opaque]
pub open spec fn is_disable_pagefile(t: Tweak) -> bool {
    &&& fresh_tweak(t, "Disable Pagefile", DISABLE_PAGEFILE_DESCRIPTION@, TweakCategory::Memory, true)
    &&& keyed_tweak(t, seq![OptionView::Enabled(false), OptionView::Enabled(true)])
    &&& powershell_table(t, TweakId::DisablePagefile, Some(DISABLE_PAGEFILE_READ_SCRIPT), disable_pagefile_table())
}

/// Builds the "Disable Pagefile" tweak.
pub fn disable_pagefile() -> (r: Tweak)
    ensures
        is_disable_pagefile(r),
{
    let options = vec![
        (TweakOption::Enabled(false), PowershellAction { script: DISABLE_PAGEFILE_DISABLED_SCRIPT, state: Some("Enabled") }),
        (TweakOption::Enabled(true), PowershellAction { script: DISABLE_PAGEFILE_ENABLED_SCRIPT, state: Some("Disabled") }),
    ];
    proof {
        assert(actions_view(options@) =~= disable_pagefile_table());
        assert(entry_keys(options@) =~= seq![OptionView::Enabled(false), OptionView::Enabled(true)]);
        lemma_keys_distinct_from(options@, seq![OptionView::Enabled(false), OptionView::Enabled(true)]);
    }
    let r = Tweak::powershell_tweak(
        "Disable Pagefile",
        DISABLE_PAGEFILE_DESCRIPTION,
        TweakCategory::Memory,
        PowershellTweak { id: TweakId::DisablePagefile, read_script: Some(DISABLE_PAGEFILE_READ_SCRIPT), options },
        true,
    );
    proof {
        reveal(is_disable_pagefile);
    }
    r
}

/// The description of the "Disable Data Execution Prevention" tweak.
pub const DISABLE_DATA_EXECUTION_PREVENTION_DESCRIPTION: &'static str = "Disables Data Execution Prevention (DEP) by setting the `nx` boot configuration option to `AlwaysOff`. This may improve compatibility with older applications but can introduce security risks.";

/// The script that prints the current state of the "Disable Data Execution Prevention" tweak.
pub const DISABLE_DATA_EXECUTION_PREVENTION_READ_SCRIPT: &'static str = "$depSettings = bcdedit /enum | Select-String 'nx'\n\n                if ($depSettings -match 'AlwaysOff') {\n                    \"Disabled\"\n                } else {\n                    \"Enabled\"\n                }";

/// The script that turns off the "Disable Data Execution Prevention" tweak.
pub const DISABLE_DATA_EXECUTION_PREVENTION_DISABLED_SCRIPT: &'static str = "bcdedit.exe /set nx OptIn";

/// The script that turns on the "Disable Data Execution Prevention" tweak.
pub const DISABLE_DATA_EXECUTION_PREVENTION_ENABLED_SCRIPT: &'static str = "bcdedit.exe /set nx AlwaysOff";

/// The actions of the "Disable Data Execution Prevention" tweak: each option with its script and the
/// text its state prints, in order.
pub open spec fn disable_data_execution_prevention_table() -> Seq<(OptionView, PowershellAction)> {
    seq![
        (OptionView::Enabled(false), PowershellAction { script: DISABLE_DATA_EXECUTION_PREVENTION_DISABLED_SCRIPT, state: Some("Enabled") }),
        (OptionView::Enabled(true), PowershellAction { script: DISABLE_DATA_EXECUTION_PREVENTION_ENABLED_SCRIPT, state: Some("Disabled") }),
    ]
}

/// The "Disable Data Execution Prevention" tweak as `disable_data_execution_prevention` builds it.
#[verifier::opaque]
pub open spec fn is_disable_data_execution_prevention(t: Tweak) -> bool {
    &&& fresh_tweak(t, "Disable Data Execution Prevention", DISABLE_DATA_EXECUTION_PREVENTION_DESCRIPTION@, TweakCategory::Security, true)
    &&& keyed_tweak(t, seq![OptionView::Enabled(false), OptionView::Enabled(true)])
    &&& powershell_table(t, TweakId::DisableDataExecutionPrevention, Some(DISABLE_DATA_EXECUTION_PREVENTION_READ_SCRIPT), disable_data_execution_prevention_table())
}

/// Builds the "Disable Data Execution Prevention" tweak.
pub fn disable_data_execution_prevention() -> (r: Tweak)
    ensures
        is_disable_data_execution_prevention(r),
{
    let options = vec![
        (TweakOption::Enabled(false), PowershellAction { script: DISABLE_DATA_EXECUTION_PREVENTION_DISABLED_SCRIPT, state: Some("Enabled") }),
        (TweakOption::Enabled(true), PowershellAction { script: DISABLE_DATA_EXECUTION_PREVENTION_ENABLED_SCRIPT, state: Some("Disabled") }),
    ];
    proof {
        assert(actions_view(options@) =~= disable_data_execution_prevention_table());
        assert(entry_keys(options@) =~= seq![OptionView::Enabled(false), OptionView::Enabled(true)]);
        lemma_keys_distinct_from(options@, seq![OptionView::Enabled(false), OptionView::Enabled(true)]);
    }
    let r = Tweak::powershell_tweak(
        "Disable Data Execution Prevention",
        DISABLE_DATA_EXECUTION_PREVENTION_DESCRIPTION,
        TweakCategory::Security,
        PowershellTweak { id: TweakId::DisableDataExecutionPrevention, read_script: Some(DISABLE_DATA_EXECUTION_PREVENTION_READ_SCRIPT), options },
        true,
    );
    proof {
        reveal(is_disable_data_execution_prevention);
    }
    r
}

/// The description of the "Disable Superfetch" tweak.
pub const DISABLE_SUPERFETCH_DESCRIPTION: &'static str = "Disables the Superfetch service, which preloads frequently used applications into memory to improve performance. This tweak can reduce disk I/O and memory usage but may impact performance in some scenarios.";

/// The script that prints the current state of the "Disable Superfetch" tweak.
pub const DISABLE_SUPERFETCH_READ_SCRIPT: &'static str = "$superfetchStatus = Get-Service -Name SysMain | Select-Object -ExpandProperty Status\n\n                if ($superfetchStatus -eq \"Running\") {\n                    \"Enabled\"\n                } else {\n                    \"Disabled\"\n                }";

/// The script that turns off the "Disable Superfetch" tweak.
pub const DISABLE_SUPERFETCH_DISABLED_SCRIPT: &'static str = "Set-Service -Name \"SysMain\" -StartupType Automatic -Status Running";

/// The script that turns on the "Disable Superfetch" tweak.
pub const DISABLE_SUPERFETCH_ENABLED_SCRIPT: &'static str = "Stop-Service -Force -Name \"SysMain\"; Set-Service -Name \"SysMain\" -StartupType Disabled";

/// The actions of the "Disable Superfetch" tweak: each option with its script and the
/// text its state prints, in order.
pub open spec fn disable_superfetch_table() -> Seq<(OptionView, PowershellAction)> {
    seq![
        (OptionView::Enabled(false), PowershellAction { script: DISABLE_SUPERFETCH_DISABLED_SCRIPT, state: Some("Enabled") }),
        (OptionView::Enabled(true), PowershellAction { script: DISABLE_SUPERFETCH_ENABLED_SCRIPT, state: Some("Disabled") }),
    ]
}

/// The "Disable Superfetch" tweak as `disable_superfetch` builds it.
#[verifier::opaque]
pub open spec fn is_disable_superfetch(t: Tweak) -> bool {
    &&& fresh_tweak(t, "Disable Superfetch", DISABLE_SUPERFETCH_DESCRIPTION@, TweakCategory::Memory, true)
    &&& keyed_tweak(t, seq![OptionView::Enabled(false), OptionView::Enabled(true)])
    &&& powershell_table(t, TweakId::DisableSuperfetch, Some(DISABLE_SUPERFETCH_READ_SCRIPT), disable_superfetch_table())
}

/// Builds the "Disable Superfetch" tweak.
pub fn disable_superfetch() -> (r: Tweak)
    ensures
        is_disable_superfetch(r),
{
    let options = vec![
        (TweakOption::Enabled(false), PowershellAction { script: DISABLE_SUPERFETCH_DISABLED_SCRIPT, state: Some("Enabled") }),
        (TweakOption::Enabled(true), PowershellAction { script: DISABLE_SUPERFETCH_ENABLED_SCRIPT, state: Some("Disabled") }),
    ];
    proof {
        assert(actions_view(options@) =~= disable_superfetch_table());
        assert(entry_keys(options@) =~= seq![OptionView::Enabled(false), OptionView::Enabled(true)]);
        lemma_keys_distinct_from(options@, seq![OptionView::Enabled(false), OptionView::Enabled(true)]);
    }
    let r = Tweak::powershell_tweak(
        "Disable Superfetch",
        DISABLE_SUPERFETCH_DESCRIPTION,
        TweakCategory::Memory,
        PowershellTweak { id: TweakId::DisableSuperfetch, read_script: Some(DISABLE_SUPERFETCH_READ_SCRIPT), options },
        true,
    );
    proof {
        reveal(is_disable_superfetch);
    }
    r
}

/// The state texts of "Disable Superfetch" as they occur in the outputs of
/// its read script.
proof fn lemma_superfetch_texts()
    ensures
        contains_seq("Disabled"@, "Disabled"@),
        contains_seq("Enabled"@, "Enabled"@),
        !contains_seq("Disabled"@, "Enabled"@),
{
    reveal_strlit("Disabled");
    reveal_strlit("Enabled");
    let dis = "Disabled"@;
    let en = "Enabled"@;
    let z: int = 0;
    assert(dis.subrange(z, z + dis.len()) =~= dis);
    assert(en.subrange(z, z + en.len()) =~= en);
    assert forall|i: int| 0 <= i && i + en.len() <= dis.len() implies #[trigger] dis.subrange(i, i + en.len()) != en by {
        assert(dis.subrange(i, i + en.len())[0] == dis[i]);
        assert(dis[i] != en[0]);
    }
}

/// Read-back of "Disable Superfetch": when the read script reports a stopped
/// SysMain service ("Disabled", with any white space around it) the first
/// option whose state text occurs in the output is `Enabled(true)`, so
/// `initial_state` gives `Enabled(true)`; when it reports a running service
/// ("Enabled") it is `Enabled(false)`.
pub proof fn lemma_superfetch_read_back(t: Tweak, output: Seq<char>)
    requires
        is_disable_superfetch(t),
    ensures
        t.method matches TweakMethodKind::Powershell(m) && {
            &&& trimmed(output) == "Disabled"@ ==> {
                let p = first_state_match(m.options@, trimmed(output), 0);
                p == 1 && m.options@[p].0 == TweakOption::Enabled(true)
            }
            &&& trimmed(output) == "Enabled"@ ==> {
                let p = first_state_match(m.options@, trimmed(output), 0);
                p == 0 && m.options@[p].0 == TweakOption::Enabled(false)
            }
        },
{
    assert(powershell_table(t, TweakId::DisableSuperfetch, Some(DISABLE_SUPERFETCH_READ_SCRIPT), disable_superfetch_table())) by {
        reveal(is_disable_superfetch);
    }
    let m = t.method->Powershell_0;
    let opts = m.options@;
    assert(opts.len() == 2 && opts[0].0@ == OptionView::Enabled(false) && opts[1].0@ == OptionView::Enabled(true)
        && opts[0].1.state == Some("Enabled") && opts[1].1.state == Some("Disabled")) by {
        assert(actions_view(opts) == disable_superfetch_table());
        assert(actions_view(opts).len() == opts.len());
        assert(actions_view(opts)[0] == (opts[0].0@, opts[0].1));
        assert(actions_view(opts)[1] == (opts[1].0@, opts[1].1));
    }
    lemma_superfetch_texts();
    assert(first_state_match(opts, "Disabled"@, 1) == 1);
    assert(first_state_match(opts, "Disabled"@, 0) == 1);
    assert(first_state_match(opts, "Enabled"@, 0) == 0);
}

/// The description of the "Disable CPU Idle States" tweak.
pub const DISABLE_CPU_IDLE_STATES_DESCRIPTION: &'static str = "Disables CPU idle states (C-states) to prevent the processor from entering low-power states. This tweak can reduce latency and improve performance in real-time applications but may increase power consumption and heat output.";

/// The script that prints the current state of the "Disable CPU Idle States" tweak.
pub const DISABLE_CPU_IDLE_STATES_READ_SCRIPT: &'static str = "powercfg /QH |\n    Select-String -Pattern 'GUID Alias:\\s+IDLEDISABLE' -Context 0,6 |\n    ForEach-Object {\n        $_.Context.PostContext |\n        Select-String 'Current AC Power Setting Index:' |\n        ForEach-Object {\n            ($_ -split ':')[1].Trim()\n        }\n    }";

/// The script that turns off the "Disable CPU Idle States" tweak.
pub const DISABLE_CPU_IDLE_STATES_DISABLED_SCRIPT: &'static str = "\n                        powercfg.exe /setacvalueindex SCHEME_CURRENT SUB_PROCESSOR IdleDisable 0\n                        powercfg.exe /setactive SCHEME_CURRENT\n                        ";

/// The script that turns on the "Disable CPU Idle States" tweak.
pub const DISABLE_CPU_IDLE_STATES_ENABLED_SCRIPT: &'static str = "\n                        powercfg.exe /setacvalueindex SCHEME_CURRENT SUB_PROCESSOR IdleDisable 1\n                        powercfg.exe /setactive SCHEME_CURRENT\n                        ";

/// The actions of the "Disable CPU Idle States" tweak: each option with its script and the
/// text its state prints, in order.
pub open spec fn disable_cpu_idle_states_table() -> Seq<(OptionView, PowershellAction)> {
    seq![
        (OptionView::Enabled(false), PowershellAction { script: DISABLE_CPU_IDLE_STATES_DISABLED_SCRIPT, state: Some("0x00000000") }),
        (OptionView::Enabled(true), PowershellAction { script: DISABLE_CPU_IDLE_STATES_ENABLED_SCRIPT, state: Some("0x00000001") }),
    ]
}

/// The "Disable CPU Idle States" tweak as `disable_cpu_idle_states` builds it.
#[verifier::opaque]
pub open spec fn is_disable_cpu_idle_states(t: Tweak) -> bool {
    &&& fresh_tweak(t, "Disable CPU Idle States", DISABLE_CPU_IDLE_STATES_DESCRIPTION@, TweakCategory::Power, false)
    &&& keyed_tweak(t, seq![OptionView::Enabled(false), OptionView::Enabled(true)])
    &&& powershell_table(t, TweakId::DisableCpuIdleStates, Some(DISABLE_CPU_IDLE_STATES_READ_SCRIPT), disable_cpu_idle_states_table())
}

/// Builds the "Disable CPU Idle States" tweak.
fn disable_cpu_idle_states() -> (r: Tweak)
    ensures
        is_disable_cpu_idle_states(r),
{
    let options = vec![
        (TweakOption::Enabled(false), PowershellAction { script: DISABLE_CPU_IDLE_STATES_DISABLED_SCRIPT, state: Some("0x00000000") }),
        (TweakOption::Enabled(true), PowershellAction { script: DISABLE_CPU_IDLE_STATES_ENABLED_SCRIPT, state: Some("0x00000001") }),
    ];
    proof {
        assert(actions_view(options@) =~= disable_cpu_idle_states_table());
        assert(entry_keys(options@) =~= seq![OptionView::Enabled(false), OptionView::Enabled(true)]);
        lemma_keys_distinct_from(options@, seq![OptionView::Enabled(false), OptionView::Enabled(true)]);
    }
    let r = Tweak::powershell_tweak(
        "Disable CPU Idle States",
        DISABLE_CPU_IDLE_STATES_DESCRIPTION,
        TweakCategory::Power,
        PowershellTweak { id: TweakId::DisableCpuIdleStates, read_script: Some(DISABLE_CPU_IDLE_STATES_READ_SCRIPT), options },
        false,
    );
    proof {
        reveal(is_disable_cpu_idle_states);
    }
    r
}

/// The description of the "Disable Diagnostic Policy Service" tweak.
pub const DISABLE_DPS_DESCRIPTION: &'static str = "Disables the Diagnostic Policy Service (DPS), which is responsible for troubleshooting and diagnostics in Windows.";

/// The script that prints the current state of the "Disable Diagnostic Policy Service" tweak.
pub const DISABLE_DPS_READ_SCRIPT: &'static str = "(Get-Service -Name \"DPS\").Status";

/// The script that turns off the "Disable Diagnostic Policy Service" tweak.
pub const DISABLE_DPS_DISABLED_SCRIPT: &'static str = "Start-Service -Force -Name \"DPS\"";

/// The script that turns on the "Disable Diagnostic Policy Service" tweak.
pub const DISABLE_DPS_ENABLED_SCRIPT: &'static str = "Stop-Service -Name \"DPS\" -Force";

/// The actions of the "Disable Diagnostic Policy Service" tweak: each option with its script and the
/// text its state prints, in order.
pub open spec fn disable_dps_table() -> Seq<(OptionView, PowershellAction)> {
    seq![
        (OptionView::Enabled(false), PowershellAction { script: DISABLE_DPS_DISABLED_SCRIPT, state: Some("Running") }),
        (OptionView::Enabled(true), PowershellAction { script: DISABLE_DPS_ENABLED_SCRIPT, state: Some("Stopped") }),
    ]
}

/// The "Disable Diagnostic Policy Service" tweak as `disable_dps` builds it.
#[verifier::opaque]
pub open spec fn is_disable_dps(t: Tweak) -> bool {
    &&& fresh_tweak(t, "Disable Diagnostic Policy Service", DISABLE_DPS_DESCRIPTION@, TweakCategory::System, false)
    &&& keyed_tweak(t, seq![OptionView::Enabled(false), OptionView::Enabled(true)])
    &&& powershell_table(t, TweakId::DisableDps, Some(DISABLE_DPS_READ_SCRIPT), disable_dps_table())
}

/// Builds the "Disable Diagnostic Policy Service" tweak.
fn disable_dps() -> (r: Tweak)
    ensures
        is_disable_dps(r),
{
    let options = vec![
        (TweakOption::Enabled(false), PowershellAction { script: DISABLE_DPS_DISABLED_SCRIPT, state: Some("Running") }),
        (TweakOption::Enabled(true), PowershellAction { script: DISABLE_DPS_ENABLED_SCRIPT, state: Some("Stopped") }),
    ];
    proof {
        assert(actions_view(options@) =~= disable_dps_table());
        assert(entry_keys(options@) =~= seq![OptionView::Enabled(false), OptionView::Enabled(true)]);
        lemma_keys_distinct_from(options@, seq![OptionView::Enabled(false), OptionView::Enabled(true)]);
    }
    let r = Tweak::powershell_tweak(
        "Disable Diagnostic Policy Service",
        DISABLE_DPS_DESCRIPTION,
        TweakCategory::System,
        PowershellTweak { id: TweakId::DisableDps, read_script: Some(DISABLE_DPS_READ_SCRIPT), options },
        false,
    );
    proof {
        reveal(is_disable_dps);
    }
    r
}

/// The identifiers of the PowerShell tweaks, in the order the tool lists them.
pub open spec fn powershell_tweak_ids() -> Seq<TweakId> {
    seq![TweakId::ProcessIdleTasks, TweakId::DisableHPET, TweakId::DisableRamCompression, TweakId::DisableLocalFirewall, TweakId::DisableSuccessAuditing, TweakId::DisablePagefile, TweakId::DisableDataExecutionPrevention, TweakId::DisableSuperfetch, TweakId::DisableCpuIdleStates, TweakId::DisableDps]
}

/// Every PowerShell tweak, with its identifier, in the order the tool lists them.
pub fn all_powershell_tweaks() -> (r: Vec<(TweakId, Tweak)>)
    ensures
        table_ids(r@) == powershell_tweak_ids(),
        forall|i: int| 0 <= i < r.len() ==> fixed_tweak(#[trigger] r@[i].0, r@[i].1),
{
    let mut r: Vec<(TweakId, Tweak)> = Vec::new();
    push_fixed(&mut r, TweakId::ProcessIdleTasks, process_idle_tasks());
    push_fixed(&mut r, TweakId::DisableHPET, disable_hpet());
    push_fixed(&mut r, TweakId::DisableRamCompression, disable_ram_compression());
    push_fixed(&mut r, TweakId::DisableLocalFirewall, disable_local_firewall());
    push_fixed(&mut r, TweakId::DisableSuccessAuditing, disable_success_auditing());
    push_fixed(&mut r, TweakId::DisablePagefile, disable_pagefile());
    push_fixed(&mut r, TweakId::DisableDataExecutionPrevention, disable_data_execution_prevention());
    push_fixed(&mut r, TweakId::DisableSuperfetch, disable_superfetch());
    push_fixed(&mut r, TweakId::DisableCpuIdleStates, disable_cpu_idle_states());
    push_fixed(&mut r, TweakId::DisableDps, disable_dps());
    assert(table_ids(r@) =~= seq![TweakId::ProcessIdleTasks, TweakId::DisableHPET, TweakId::DisableRamCompression, TweakId::DisableLocalFirewall, TweakId::DisableSuccessAuditing, TweakId::DisablePagefile, TweakId::DisableDataExecutionPrevention, TweakId::DisableSuperfetch, TweakId::DisableCpuIdleStates, TweakId::DisableDps]);
    r
}

} // verus!
