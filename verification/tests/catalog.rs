use oc_tool::power::{PowerScheme, PowerSetting, PowerSubgroup};
use oc_tool::tweaks::catalog::all_tweaks;
use oc_tool::tweaks::group_policy::all_group_policy_tweaks;
use oc_tool::tweaks::group_policy::method::GroupPolicyValue;
use oc_tool::tweaks::msr::all_msr_tweaks;
use oc_tool::tweaks::msr::method::MsrState;
use oc_tool::tweaks::msr::prefetch::prefetch_aggressiveness_profile;
use oc_tool::tweaks::msr::{automatic_ibrs_enable, disable_core_watchdog_timer, disable_platform_first_error_handling, disable_rep_mov_stos_streaming};
use oc_tool::tweaks::powershell::{all_powershell_tweaks, disable_hpet, process_idle_tasks};
use oc_tool::tweaks::registry::kernel::{additional_kernel_worker_threads, thread_dpc_disable};
use oc_tool::tweaks::registry::method::RegistryKeyValue;
use oc_tool::tweaks::registry::{
    all_registry_tweaks, configure_prefetcher_service, disable_application_telemetry,
    disable_driver_paging, disable_intel_tsx, disable_page_file_encryption,
    disable_paging_combining, disable_protected_services, disable_security_accounts_manager,
    disable_speculative_execution_mitigations, disable_windows_defender,
    disable_windows_maintenance, enable_large_system_cache, enable_mcsss,
    high_performance_visual_settings, split_large_caches, svc_host_split_threshold,
    system_responsiveness,
};
use oc_tool::tweaks::winapi::low_res_mode::DisplaySettingsType;
use oc_tool::tweaks::winapi::{all_winapi_tweaks, low_res_mode, StartupReadings};
use oc_tool::tweaks::{TweakCategory, TweakId, TweakMethodKind, TweakOption, TweakStatus, TweakWidget, WinapiMethod};

fn setting(name: &str, guid: u128) -> PowerSetting {
    PowerSetting { name: name.to_string(), guid }
}

fn readings() -> StartupReadings {
    StartupReadings {
        active_scheme: PowerScheme { name: "Balanced".to_string(), guid: 0x381b4222_f694_41f0_9685_ff5bb260df2e },
        power_subgroups: vec![PowerSubgroup {
            _name: "Processor power management".to_string(),
            _guid: 0x54533251_82be_4824_96c1_47b60b740d00,
            settings: vec![
                setting("Processor performance core parking min cores", 1),
                setting("Processor performance increase threshold", 2),
                setting("Processor maximum frequency", 3),
            ],
        }],
        display_modes: vec![
            DisplaySettingsType { width: 1920, height: 1080, refresh_rate: 60 },
            DisplaySettingsType { width: 1280, height: 720, refresh_rate: 30 },
            DisplaySettingsType { width: 800, height: 600, refresh_rate: 30 },
            DisplaySettingsType { width: 800, height: 480, refresh_rate: 30 },
        ],
        current_display: DisplaySettingsType { width: 1920, height: 1080, refresh_rate: 60 },
        logical_processors: 8,
    }
}

#[test]
fn verify_every_tweak_id_is_used() {
    let all_tweaks = all_tweaks(readings());
    let all_ids = TweakId::variants();

    let mut unused_ids = Vec::new();

    for id in all_ids {
        if !all_tweaks.iter().any(|(k, _)| *k == id) {
            unused_ids.push(id);
        }
    }

    assert!(unused_ids.is_empty(), "Unused IDs: {:?}", unused_ids);
}

#[test]
/// Test that the tweak options are configured correctly
///
/// 1. If a tweak uses "Enabled(false)", then it should only have 1 other option: "Enabled(true)"
/// 2. If a tweak uses Option("Some Option"), then it should not have any other options with the same name, or "Enabled(true)"/"Enabled(false)"
fn test_tweak_options_configured_correctly() {
    let tweaks = vec![
        configure_prefetcher_service(),
        disable_application_telemetry(),
        thread_dpc_disable(),
        svc_host_split_threshold(),
        disable_windows_defender(),
        disable_page_file_encryption(),
        disable_intel_tsx(),
        disable_windows_maintenance(),
        additional_kernel_worker_threads(8),
        disable_speculative_execution_mitigations(),
        high_performance_visual_settings(),
        split_large_caches(),
        disable_protected_services(),
        disable_security_accounts_manager(),
        disable_paging_combining(),
        enable_mcsss(),
    ];

    for tweak in tweaks {
        let options = tweak.options;
        if options.contains(&TweakOption::Enabled(false)) {
            assert_eq!(options.len(), 2, "Tweak: {:?}", tweak.name);
            assert!(options.contains(&TweakOption::Enabled(true)), "Tweak: {:?}", tweak.name);
        } else if options.contains(&TweakOption::Enabled(true)) {
            assert_eq!(options.len(), 2, "Tweak: {:?}", tweak.name);
            assert!(options.contains(&TweakOption::Enabled(false)));
        } else {
            for option in options.clone() {
                if let TweakOption::Option(name) = option {
                    for other_option in options.clone() {
                        if let TweakOption::Option(other_name) = other_option {
                            if name == other_name {
                                assert_eq!(name, other_name);
                            }
                        }
                    }
                    assert!(!options.contains(&TweakOption::Enabled(true)), "Tweak: {:?}", tweak.name);
                    assert!(!options.contains(&TweakOption::Enabled(false)), "Tweak: {:?}", tweak.name);
                }
            }
        }
    }
}

#[test]
fn all_tweaks_holds_each_id_once_in_id_order() {
    let table = all_tweaks(readings());
    let ids = TweakId::variants();
    assert_eq!(table.len(), ids.len());
    assert_eq!(table.len(), 69);
    for (i, (id, _)) in table.iter().enumerate() {
        assert_eq!(*id, ids[i]);
        assert_eq!(id.ordinal() as usize, i);
    }
}

#[test]
fn each_list_has_its_ids() {
    let registry = all_registry_tweaks(8);
    assert_eq!(registry.len(), 26);
    assert_eq!(registry[0].0, TweakId::LargeSystemCache);
    assert_eq!(registry[9].0, TweakId::DisablePrefetcher);
    assert_eq!(registry[25].0, TweakId::AlchemyKernelTweak);
    let msr = all_msr_tweaks();
    assert_eq!(msr.len(), 26);
    assert_eq!(msr[0].0, TweakId::AutomaticIbrsEnable);
    let powershell = all_powershell_tweaks();
    assert_eq!(powershell.len(), 10);
    assert_eq!(powershell[9].0, TweakId::DisableDps);
    let group_policy = all_group_policy_tweaks();
    assert_eq!(group_policy.len(), 1);
    assert_eq!(group_policy[0].0, TweakId::SeLockMemoryPrivilege);
    let winapi = all_winapi_tweaks(readings());
    assert_eq!(winapi.len(), 6);
    assert_eq!(winapi[1].0, TweakId::SlowMode);
}

#[test]
fn large_system_cache_is_an_off_on_switch() {
    let t = enable_large_system_cache();
    assert_eq!(t.name, "Large System Cache");
    assert_eq!(t.category, TweakCategory::Memory);
    assert!(t.requires_reboot);
    assert!(!t.pending_reboot);
    assert!(matches!(t.status, TweakStatus::Idle));
    assert_eq!(t.widget, TweakWidget::Toggle);
    assert_eq!(t.options, vec![TweakOption::Enabled(false), TweakOption::Enabled(true)]);
    assert_eq!(t.state, TweakOption::Enabled(false));
    match &t.method {
        TweakMethodKind::Registry(m) => {
            assert_eq!(m.id, TweakId::LargeSystemCache);
            let on = m.options.get(&TweakOption::Enabled(true)).unwrap();
            assert_eq!(on.len(), 1);
            assert_eq!(on[0].key, "LargeSystemCache");
            assert!(matches!(on[0].value, RegistryKeyValue::Dword(1)));
        }
        _ => panic!("not a registry tweak"),
    }
}

#[test]
fn system_responsiveness_offers_named_settings() {
    let t = system_responsiveness();
    assert_eq!(t.widget, TweakWidget::SettingsComboBox);
    assert_eq!(
        t.options,
        vec![
            TweakOption::Option("Default".to_string()),
            TweakOption::Option("0".to_string()),
            TweakOption::Option("100".to_string()),
        ]
    );
    assert_eq!(t.state, TweakOption::Option("Default".to_string()));
}

#[test]
fn switch_tweaks_offer_off_and_on() {
    let t = disable_driver_paging();
    assert_eq!(t.options, vec![TweakOption::Enabled(false), TweakOption::Enabled(true)]);
    match &t.method {
        TweakMethodKind::Registry(m) => {
            let off = m.options.get(&TweakOption::Enabled(false)).unwrap();
            assert!(matches!(off[0].value, RegistryKeyValue::Dword(0)));
            let on = m.options.get(&TweakOption::Enabled(true)).unwrap();
            assert!(matches!(on[0].value, RegistryKeyValue::Dword(1)));
        }
        _ => panic!("not a registry tweak"),
    }
    for w in [disable_core_watchdog_timer(), disable_rep_mov_stos_streaming(), disable_platform_first_error_handling()] {
        assert_eq!(w.options, vec![TweakOption::Enabled(false), TweakOption::Enabled(true)]);
        match &w.method {
            TweakMethodKind::Msr(m) => {
                assert!(m.options.get(&TweakOption::Enabled(false)).unwrap().iter().all(|s| !s.state));
                assert!(m.options.get(&TweakOption::Enabled(true)).unwrap().iter().all(|s| s.state));
            }
            _ => panic!("not a register tweak"),
        }
    }
    let w = disable_core_watchdog_timer();
    match &w.method {
        TweakMethodKind::Msr(m) => {
            let steps = m.options.get(&TweakOption::Enabled(true)).unwrap();
            assert_eq!(steps[0], MsrState { index: 0xC001_0074, bit: 0, state: true });
            assert_eq!(steps[1], MsrState { index: 0xC001_0074, bit: 3, state: true });
        }
        _ => panic!("not a register tweak"),
    }
}

#[test]
fn high_performance_visual_settings_write_binary_masks() {
    let t = high_performance_visual_settings();
    match &t.method {
        TweakMethodKind::Registry(m) => {
            let mut found = 0;
            for (_, mods) in m.options.iter() {
                for md in mods {
                    if let RegistryKeyValue::Binary(bytes) = &md.value {
                        assert_eq!(bytes.len(), 8);
                        found += 1;
                    }
                }
            }
            assert_eq!(found, 2);
        }
        _ => panic!("not a registry tweak"),
    }
}

#[test]
fn msr_tweaks_start_off_and_need_no_restart() {
    let t = automatic_ibrs_enable();
    assert_eq!(t.category, TweakCategory::Cpu);
    assert!(!t.requires_reboot);
    assert_eq!(t.state, TweakOption::Enabled(false));
    match &t.method {
        TweakMethodKind::Msr(m) => {
            assert!(m.readable);
            assert_eq!(
                m.options.get(&TweakOption::Enabled(true)).unwrap()[0],
                MsrState { index: 0xC000_0080, bit: 21, state: true }
            );
        }
        _ => panic!("not a register tweak"),
    }
    let p = prefetch_aggressiveness_profile();
    assert_eq!(p.widget, TweakWidget::SettingsComboBox);
    assert_eq!(p.options.len(), 4);
    assert_eq!(p.options[3], TweakOption::Option("Level 3".to_string()));
    assert_eq!(p.state, TweakOption::Enabled(false));
}

#[test]
fn powershell_tweaks_keep_declared_order() {
    let t = process_idle_tasks();
    assert_eq!(t.options, vec![TweakOption::Run]);
    assert_eq!(t.widget, TweakWidget::Button);
    assert_eq!(t.state, TweakOption::Run);
    let h = disable_hpet();
    assert_eq!(h.options, vec![TweakOption::Enabled(false), TweakOption::Enabled(true)]);
    match &h.method {
        TweakMethodKind::Powershell(m) => {
            assert!(m.read_script.unwrap().contains("useplatformclock"));
            assert_eq!(m.options[0].1.state, Some("True"));
        }
        _ => panic!("not a PowerShell tweak"),
    }
}

#[test]
fn se_lock_memory_privilege_grants_when_on() {
    let list = all_group_policy_tweaks();
    match &list[0].1.method {
        TweakMethodKind::GroupPolicy(m) => {
            assert_eq!(m.key, "SeLockMemoryPrivilege");
            assert_eq!(*m.options.get(&TweakOption::Enabled(true)).unwrap(), GroupPolicyValue::Enabled);
            assert_eq!(*m.options.get(&TweakOption::Enabled(false)).unwrap(), GroupPolicyValue::Disabled);
        }
        _ => panic!("not a group policy tweak"),
    }
}

#[test]
fn low_res_mode_targets_lowest_mode_and_names_it() {
    let r = readings();
    let t = low_res_mode(&r.display_modes, r.current_display);
    assert_eq!(
        t.description,
        "Sets the display to lower resolution and refresh rate to reduce GPU load and improve performance -> 800x600 @30hz."
    );
    match &t.method {
        TweakMethodKind::Winapi(WinapiMethod::LowResMode(m)) => {
            assert_eq!(m.target_state, DisplaySettingsType { width: 800, height: 600, refresh_rate: 30 });
            assert_eq!(m.default, r.current_display);
        }
        _ => panic!("not the low resolution tweak"),
    }
}

#[test]
fn slow_mode_keeps_settings_it_found() {
    let winapi = all_winapi_tweaks(readings());
    match &winapi[1].1.method {
        TweakMethodKind::Winapi(WinapiMethod::SlowMode(m)) => {
            assert_eq!(m.settings.len(), 3);
            assert_eq!(m.settings[0].value, 2);
            assert_eq!(m.previous_power_scheme.name, "Balanced");
        }
        _ => panic!("not slow mode"),
    }
}

#[test]
fn worker_threads_scale_with_logical_processors() {
    let t = additional_kernel_worker_threads(12);
    match &t.method {
        TweakMethodKind::Registry(m) => {
            for (name, v) in [("Default", 0u32), ("Per Core", 12), ("Maximum", 24)] {
                let mods = m.options.get(&TweakOption::Option(name.to_string())).unwrap();
                assert_eq!(mods.len(), 2);
                for x in mods {
                    assert!(matches!(x.value, RegistryKeyValue::Dword(d) if d == v), "{}", name);
                }
            }
        }
        _ => panic!("not a registry tweak"),
    }
}

#[test]
fn slow_mode_writes_each_setting_found() {
    let r = readings();
    let m = oc_tool::tweaks::winapi::slow_mode::SlowMode::new(r.active_scheme, r.power_subgroups);
    let guids: Vec<(u128, u128, u32)> = m.settings.iter().map(|s| (s.subgroup_guid, s.power_setting_guid, s.value)).collect();
    assert_eq!(guids.len(), 3);
    assert_eq!((guids[0].0, guids[0].1), (1, 1));
    assert_eq!((guids[1].0, guids[1].1), (2, 2));
    assert_eq!((guids[2].0, guids[2].1), (3, 3));
}

#[test]
fn lists_merge_into_one_table_in_id_order() {
    let t = oc_tool::tweaks::table::table_from_lists(
        vec![(TweakId::DisableCoreParking, "d"), (TweakId::LargeSystemCache, "a")],
        vec![(TweakId::KillExplorer, "k")],
        vec![],
        vec![(TweakId::SystemResponsiveness, "b")],
        vec![(TweakId::DisableHWAcceleration, "c")],
    );
    assert_eq!(
        t,
        vec![
            (TweakId::LargeSystemCache, "a"),
            (TweakId::SystemResponsiveness, "b"),
            (TweakId::DisableHWAcceleration, "c"),
            (TweakId::DisableCoreParking, "d"),
            (TweakId::KillExplorer, "k"),
        ]
    );
}
