use indexmap::IndexMap;
use oc_tool::errors::TweakError;
use oc_tool::power::PowerScheme;
use oc_tool::tweaks::group_policy::method::{removal_succeeded, GroupPolicyTweak, GroupPolicyValue};
use oc_tool::tweaks::msr::method::{MSRTweak, MsrState};
use oc_tool::tweaks::powershell::method::{PowershellAction, PowershellTweak};
use oc_tool::tweaks::registry::method::{RegistryKeyValue, RegistryModification, RegistryTweak};
use oc_tool::tweaks::winapi::disable_processor_idle_states::DisableProcessIdleStates;
use oc_tool::tweaks::winapi::kill_explorer::KillExplorerTweak;
use oc_tool::tweaks::winapi::kill_non_critical_services::KillNonCriticalServicesTweak;
use oc_tool::tweaks::winapi::slow_mode::{PowerSchemeSetting, SlowMode, POWER_SAVER_GUID};
use oc_tool::tweaks::winapi::ultimate_performance_plan::{
    UltimatePerformancePlan, ULTIMATE_PERFORMANCE_POWER_SCHEME_GUID,
};
use oc_tool::tweaks::{TweakId, TweakOption};

fn cache_tweak() -> RegistryTweak {
    let path = "HKEY_LOCAL_MACHINE\\SYSTEM\\CurrentControlSet\\Control\\Session Manager\\Memory Management";
    RegistryTweak {
        id: TweakId::LargeSystemCache,
        options: IndexMap::from_iter(vec![
            (
                TweakOption::Enabled(false),
                vec![RegistryModification { path, key: "LargeSystemCache", value: RegistryKeyValue::Dword(0) }],
            ),
            (
                TweakOption::Enabled(true),
                vec![
                    RegistryModification { path, key: "LargeSystemCache", value: RegistryKeyValue::Dword(1) },
                    RegistryModification { path, key: "Obsolete", value: RegistryKeyValue::Deleted },
                ],
            ),
        ]),
    }
}

#[test]
fn registry_initial_state_finds_first_option_in_force() {
    let t = cache_tweak();
    let observed = vec![
        vec![Ok(Some(RegistryKeyValue::Dword(1)))],
        vec![Ok(Some(RegistryKeyValue::Dword(1))), Ok(None)],
    ];
    assert_eq!(t.initial_state(&observed).unwrap(), TweakOption::Enabled(true));
    let none_hold = vec![
        vec![Ok(Some(RegistryKeyValue::Dword(5)))],
        vec![Ok(Some(RegistryKeyValue::Dword(1))), Ok(Some(RegistryKeyValue::Dword(0)))],
    ];
    assert_eq!(t.initial_state(&none_hold).unwrap(), TweakOption::Enabled(false));
    let failing = vec![vec![Err("access denied".to_string())], vec![Ok(None), Ok(None)]];
    match t.initial_state(&failing) {
        Err(TweakError::ReadFailed { id, message }) => {
            assert_eq!(id, TweakId::LargeSystemCache);
            assert_eq!(message, "access denied");
        }
        other => panic!("unexpected {:?}", other),
    }
}

#[test]
fn registry_read_current_values() {
    let t = cache_tweak();
    assert!(t.read_current_values(&TweakOption::Enabled(false), &vec![Ok(Some(RegistryKeyValue::Dword(0)))]).unwrap());
    assert!(!t.read_current_values(&TweakOption::Enabled(false), &vec![Ok(None)]).unwrap());
    assert!(matches!(
        t.read_current_values(&TweakOption::Run, &vec![]),
        Err(TweakError::OptionNotFound { .. })
    ));
}

#[test]
fn registry_apply_failure_reports_rollback() {
    let t = cache_tweak();
    match t.apply_failure("write denied".to_string(), None) {
        TweakError::WriteFailed { message, .. } => assert_eq!(message, "write denied"),
        other => panic!("unexpected {:?}", other),
    }
    match t.apply_failure("write denied".to_string(), Some("rollback denied".to_string())) {
        TweakError::RollbackFailed { apply_error, rollback_error, .. } => {
            assert_eq!(apply_error, "write denied");
            assert_eq!(rollback_error, "rollback denied");
        }
        other => panic!("unexpected {:?}", other),
    }
    assert_eq!(t.default_modifications().unwrap().len(), 1);
    assert_eq!(t.modifications_for(&TweakOption::Enabled(true)).unwrap().len(), 2);
}

#[test]
fn binary_values_compare_by_content() {
    let a = RegistryKeyValue::Binary(vec![1, 2, 3]);
    assert!(a.same_value(&RegistryKeyValue::Binary(vec![1, 2, 3])));
    assert!(!a.same_value(&RegistryKeyValue::Binary(vec![1, 2])));
    assert!(!a.same_value(&RegistryKeyValue::Dword(1)));
    assert!(RegistryKeyValue::Deleted.is_deleted());
}

fn msr_tweak() -> MSRTweak {
    MSRTweak {
        id: TweakId::AutomaticIbrsEnable,
        readable: true,
        options: IndexMap::from_iter(vec![
            (TweakOption::Enabled(false), vec![MsrState { index: 0xC000_0080, bit: 21, state: false }]),
            (TweakOption::Enabled(true), vec![MsrState { index: 0xC000_0080, bit: 21, state: true }]),
        ]),
    }
}

#[test]
fn msr_masks_and_values() {
    let steps = [
        MsrState { index: 1, bit: 6, state: true },
        MsrState { index: 1, bit: 7, state: false },
        MsrState { index: 1, bit: 9, state: true },
    ];
    assert_eq!(MSRTweak::create_set_mask(&steps), (1 << 6) | (1 << 9));
    assert_eq!(MSRTweak::create_clear_mask(&steps), 1 << 7);
    assert_eq!(MSRTweak::apply_masks(0b1000_0000, 1 << 6, 1 << 7), 1 << 6);
    assert_eq!(MSRTweak::applied_value(0, &MsrState { index: 1, bit: 21, state: true }), 1 << 21);
    assert_eq!(MSRTweak::applied_value(u64::MAX, &MsrState { index: 1, bit: 0, state: false }), u64::MAX - 1);
    assert!(MSRTweak::bit_matches(1 << 21, &MsrState { index: 1, bit: 21, state: true }));
    assert!(!MSRTweak::bit_matches(0, &MsrState { index: 1, bit: 21, state: true }));
}

#[test]
fn msr_initial_state_checks_every_core() {
    let t = msr_tweak();
    let on = 1u64 << 21;
    // option 0 (off) fails on core 1; option 1 (on) holds on both cores
    let observed = vec![vec![vec![Ok(0), Ok(on)]], vec![vec![Ok(on), Ok(on)]]];
    assert_eq!(t.initial_state(&observed, 2).unwrap(), TweakOption::Enabled(true));
    let mixed = vec![vec![vec![Ok(on), Ok(0)]], vec![vec![Ok(on), Ok(0)]]];
    assert_eq!(t.initial_state(&mixed, 2).unwrap(), TweakOption::Enabled(false));
    let failed = vec![vec![vec![Err("no driver".to_string()), Ok(0)]], vec![vec![Ok(on), Ok(on)]]];
    assert!(matches!(t.initial_state(&failed, 2), Err(TweakError::ReadFailed { .. })));
    let unreadable = MSRTweak { readable: false, ..msr_tweak() };
    assert_eq!(unreadable.initial_state(&vec![], 2).unwrap(), TweakOption::Enabled(false));
}

#[test]
fn msr_write_check() {
    let t = msr_tweak();
    let step = MsrState { index: 0xC000_0080, bit: 21, state: true };
    assert!(t.verify_write(&step, 3, 5, 5).is_ok());
    match t.verify_write(&step, 3, 5, 4) {
        Err(TweakError::MsrVerifyFailed { index, core, expected, found, .. }) => {
            assert_eq!((index, core, expected, found), (0xC000_0080, 3, 5, 4));
        }
        other => panic!("unexpected {:?}", other),
    }
    assert_eq!(t.default_steps().unwrap()[0].state, false);
}

fn ps_tweak() -> PowershellTweak {
    PowershellTweak {
        id: TweakId::DisableLocalFirewall,
        read_script: Some("state"),
        options: vec![
            (TweakOption::Enabled(false), PowershellAction { script: "on", state: Some("On") }),
            (TweakOption::Enabled(true), PowershellAction { script: "off", state: Some("Off") }),
        ],
    }
}

#[test]
fn powershell_initial_state_matches_output() {
    let t = ps_tweak();
    assert_eq!(t.initial_state(Some(Ok("  Off\n".to_string()))).unwrap(), TweakOption::Enabled(true));
    assert_eq!(t.initial_state(Some(Ok("On".to_string()))).unwrap(), TweakOption::Enabled(false));
    assert_eq!(t.initial_state(Some(Ok("unknown".to_string()))).unwrap(), TweakOption::Enabled(false));
    assert!(matches!(t.initial_state(Some(Err("boom".to_string()))), Err(TweakError::ReadFailed { .. })));
    let no_read = PowershellTweak { read_script: None, ..ps_tweak() };
    assert_eq!(no_read.initial_state(None).unwrap(), TweakOption::Enabled(false));
    assert_eq!(t.apply_script(&TweakOption::Enabled(true)).unwrap(), "off");
    assert!(matches!(t.revert_script(), Ok("on")));
}

fn gp_tweak() -> GroupPolicyTweak {
    GroupPolicyTweak {
        id: TweakId::SeLockMemoryPrivilege,
        key: "SeLockMemoryPrivilege",
        options: IndexMap::from_iter(vec![
            (TweakOption::Enabled(false), GroupPolicyValue::Disabled),
            (TweakOption::Enabled(true), GroupPolicyValue::Enabled),
        ]),
    }
}

#[test]
fn group_policy_decisions() {
    let t = gp_tweak();
    let rights = vec!["SeShutdownPrivilege".to_string(), "SeLockMemoryPrivilege".to_string()];
    assert_eq!(t.value_from_rights(&rights), GroupPolicyValue::Enabled);
    assert_eq!(t.value_from_rights(&vec![]), GroupPolicyValue::Disabled);
    assert_eq!(t.initial_state(Ok(GroupPolicyValue::Enabled)).unwrap(), TweakOption::Enabled(true));
    assert!(matches!(t.initial_state(Err("lsa".to_string())), Err(TweakError::ReadFailed { .. })));
    assert_eq!(t.change_for(&TweakOption::Enabled(true)).unwrap(), ("SeLockMemoryPrivilege", true));
    assert_eq!(t.revert_change().unwrap(), ("SeLockMemoryPrivilege", false));
    assert!(removal_succeeded(None));
    assert!(removal_succeeded(Some(2)));
    assert!(!removal_succeeded(Some(5)));
}

#[test]
fn test_initial_state() {
    let tweak = UltimatePerformancePlan::new(PowerScheme {
        name: "Balanced".to_string(),
        guid: 0x381b4222_f694_41f0_9685_ff5bb260df2e,
    });
    assert_eq!(tweak.initial_state(), TweakOption::Enabled(false));
}

#[test]
fn ultimate_performance_schemes() {
    let tweak = UltimatePerformancePlan::new(PowerScheme { name: "Balanced".to_string(), guid: 1 });
    let schemes = vec![
        PowerScheme { name: "Balanced".to_string(), guid: 1 },
        PowerScheme { name: "Ultimate Performance".to_string(), guid: 42 },
    ];
    assert_eq!(UltimatePerformancePlan::find_existing(&schemes), None);
    assert_eq!(tweak.find_created(&schemes).unwrap(), 42);
    assert!(matches!(tweak.find_created(&vec![]), Err(TweakError::NotFound { .. })));
    let with_template = vec![PowerScheme { name: "x".to_string(), guid: ULTIMATE_PERFORMANCE_POWER_SCHEME_GUID }];
    assert_eq!(UltimatePerformancePlan::find_existing(&with_template), Some(ULTIMATE_PERFORMANCE_POWER_SCHEME_GUID));
    assert_eq!(tweak.revert_target(), 1);
    let active = UltimatePerformancePlan::new(PowerScheme { name: "u".to_string(), guid: ULTIMATE_PERFORMANCE_POWER_SCHEME_GUID });
    assert_eq!(active.initial_state(), TweakOption::Enabled(true));
}

#[test]
fn test_slow_mode_apply_and_revert() {
    let slow_mode = SlowMode {
        id: TweakId::SlowMode,
        settings: vec![
            PowerSchemeSetting { subgroup_guid: 1, power_setting_guid: 1, value: 2 },
            PowerSchemeSetting { subgroup_guid: 2, power_setting_guid: 2, value: 100 },
        ],
        previous_power_scheme: PowerScheme { name: "Balanced".to_string(), guid: 9 },
    };
    // not in Power Saver: not applied
    assert_eq!(slow_mode.initial_state(Ok(9), &vec![Ok(2), Ok(100)]).unwrap(), TweakOption::Enabled(false));
    // applying writes the settings into Power Saver and activates it
    assert_eq!(slow_mode.apply_target(), POWER_SAVER_GUID);
    let applied = slow_mode.initial_state(Ok(POWER_SAVER_GUID), &vec![Ok(2), Ok(100)]).unwrap();
    assert_eq!(applied, TweakOption::Enabled(true));
    // reverting activates the scheme that was active before
    assert_eq!(slow_mode.revert_target(), 9);
    let reverted = slow_mode.initial_state(Ok(9), &vec![Ok(2), Ok(100)]).unwrap();
    assert_eq!(reverted, TweakOption::Enabled(false));
    assert_eq!(slow_mode.initial_state(Ok(POWER_SAVER_GUID), &vec![Ok(2), Ok(50)]).unwrap(), TweakOption::Enabled(false));
}

#[test]
fn idle_states_explorer_and_services() {
    let idle = DisableProcessIdleStates::new();
    assert_eq!(idle.initial_state(Ok(1)).unwrap(), TweakOption::Enabled(true));
    assert_eq!(idle.initial_state(Ok(0)).unwrap(), TweakOption::Enabled(false));
    assert_eq!(idle.apply_value(), 1);
    assert_eq!(idle.revert_value(), 0);

    let explorer = KillExplorerTweak::new();
    assert!(KillExplorerTweak::is_explorer_process("EXPLORER.EXE"));
    assert!(!KillExplorerTweak::is_explorer_process("explorer.exe.bak"));
    assert!(KillExplorerTweak::is_explorer_running(&vec!["svchost.exe".to_string(), "Explorer.exe".to_string()]));
    assert!(!KillExplorerTweak::auto_restart_enabled(None));
    assert!(KillExplorerTweak::auto_restart_enabled(Some(1)));
    assert_eq!(explorer.initial_state(false, false), TweakOption::Enabled(true));
    assert_eq!(explorer.initial_state(true, false), TweakOption::Enabled(false));
    assert_eq!(KillExplorerTweak::auto_restart_value(false), 0);

    let services = KillNonCriticalServicesTweak::new();
    let list = KillNonCriticalServicesTweak::services_to_kill();
    assert_eq!(list.len(), 102);
    assert!(list.contains(&"OneSyncSvc"));
    assert!(KillNonCriticalServicesTweak::should_stop(4));
    assert!(!KillNonCriticalServicesTweak::should_stop(1));
    assert_eq!(services.initial_state(), TweakOption::Enabled(false));
    assert!(services.apply_outcome(Ok(())).is_ok());
    assert!(matches!(services.apply_outcome(Err("scm".to_string())), Err(TweakError::WriteFailed { .. })));
}

/// The scheme that applying the Ultimate Performance plan activates, given the
/// schemes listed after the template was copied.
fn ultimate_target(tweak: &UltimatePerformancePlan, schemes: &Vec<PowerScheme>) -> u128 {
    match UltimatePerformancePlan::find_existing(schemes) {
        Some(g) => g,
        None => tweak.find_created(schemes).unwrap(),
    }
}

#[test]
fn test_apply() {
    let tweak = UltimatePerformancePlan::new(PowerScheme { name: "Balanced".to_string(), guid: 1 });
    let schemes = vec![
        PowerScheme { name: "Balanced".to_string(), guid: 1 },
        PowerScheme { name: "Ultimate Performance".to_string(), guid: 42 },
    ];
    let active = ultimate_target(&tweak, &schemes);
    let active_scheme = schemes.iter().find(|s| s.guid == active).unwrap();
    assert_eq!(active_scheme.name, "Ultimate Performance");
}

#[test]
fn test_revert() {
    let tweak = UltimatePerformancePlan::new(PowerScheme { name: "Balanced".to_string(), guid: 1 });
    let schemes = vec![
        PowerScheme { name: "Balanced".to_string(), guid: 1 },
        PowerScheme { name: "Ultimate Performance".to_string(), guid: 42 },
    ];
    assert_eq!(ultimate_target(&tweak, &schemes), 42);
    let active = tweak.revert_target();
    let after = UltimatePerformancePlan::new(schemes.into_iter().find(|s| s.guid == active).unwrap());
    assert_eq!(after.initial_state(), TweakOption::Enabled(false));
}
