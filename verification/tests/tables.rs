use oc_tool::errors::TweakError;
use oc_tool::tweaks::msr::prefetch::prefetch_aggressiveness_profile;
use oc_tool::tweaks::powershell::method::PowershellTweak;
use oc_tool::tweaks::powershell::{disable_hpet, disable_ram_compression, disable_superfetch, process_idle_tasks};
use oc_tool::tweaks::registry::kernel::alchemy_kernel_tweak;
use oc_tool::tweaks::registry::method::RegistryKeyValue;
use oc_tool::tweaks::registry::{configure_prefetcher_service, high_performance_visual_settings};
use oc_tool::tweaks::{TweakId, TweakMethodKind, TweakOption};

fn powershell(t: &oc_tool::tweaks::Tweak) -> &PowershellTweak {
    match &t.method {
        TweakMethodKind::Powershell(m) => m,
        _ => panic!("not a PowerShell tweak"),
    }
}

#[test]
fn alchemy_tunes_when_on_and_deletes_when_off() {
    let t = alchemy_kernel_tweak();
    assert_eq!(t.options, vec![TweakOption::Enabled(false), TweakOption::Enabled(true)]);
    assert_eq!(t.state, TweakOption::Enabled(false));
    match &t.method {
        TweakMethodKind::Registry(m) => {
            let on = m.options.get(&TweakOption::Enabled(true)).unwrap();
            assert_eq!(on.len(), 14);
            assert_eq!(on[0].key, "MaxDynamicTickDuration");
            assert!(matches!(on[0].value, RegistryKeyValue::Dword(10)));
            assert!(matches!(on[1].value, RegistryKeyValue::Dword(128)));
            assert!(matches!(on[10].value, RegistryKeyValue::Dword(0)));
            assert_eq!(on[13].key, "StackSubSystemStackSize");
            assert!(matches!(on[13].value, RegistryKeyValue::Dword(65536)));
            let off = m.options.get(&TweakOption::Enabled(false)).unwrap();
            assert_eq!(off.len(), 14);
            assert!(off.iter().all(|x| matches!(x.value, RegistryKeyValue::Deleted)));
            for (a, b) in on.iter().zip(off.iter()) {
                assert_eq!(a.key, b.key);
                assert_eq!(a.path, b.path);
            }
        }
        _ => panic!("not a registry tweak"),
    }
}

#[test]
fn prefetch_levels_write_their_number() {
    let t = prefetch_aggressiveness_profile();
    match &t.method {
        TweakMethodKind::Msr(m) => {
            for n in 0u32..4 {
                let steps = m.options.get(&TweakOption::Option(format!("Level {}", n))).unwrap();
                let bit = |b: u32| steps.iter().find(|s| s.bit == b).unwrap().state;
                assert!(bit(6));
                assert_eq!(bit(7), n & 1 == 1);
                assert_eq!(bit(8), (n >> 1) & 1 == 1);
                assert!(!bit(9));
            }
        }
        _ => panic!("not a register tweak"),
    }
}

#[test]
fn visual_settings_revert_restores_every_value_written() {
    let t = high_performance_visual_settings();
    match &t.method {
        TweakMethodKind::Registry(m) => {
            let on = m.options.get(&TweakOption::Enabled(true)).unwrap();
            let off = m.options.get(&TweakOption::Enabled(false)).unwrap();
            for w in on {
                assert!(off.iter().any(|r| r.path == w.path && r.key == w.key), "{} not restored", w.key);
            }
            let shadow = off.iter().find(|r| r.key == "ListviewShadow").unwrap();
            assert!(matches!(shadow.value, RegistryKeyValue::Dword(1)));
        }
        _ => panic!("not a registry tweak"),
    }
}

#[test]
fn prefetcher_service_modes_are_distinct() {
    let t = configure_prefetcher_service();
    match &t.method {
        TweakMethodKind::Registry(m) => {
            for (name, v) in [("Default", 3u32), ("Boot Only", 2), ("Application Only", 1), ("Disabled", 0)] {
                let mods = m.options.get(&TweakOption::Option(name.to_string())).unwrap();
                assert!(matches!(mods[0].value, RegistryKeyValue::Dword(x) if x == v), "{}", name);
            }
        }
        _ => panic!("not a registry tweak"),
    }
}

#[test]
fn dynamic_tick_is_disabled_when_on() {
    let t = disable_hpet();
    let m = powershell(&t);
    let on = m.apply_script(&TweakOption::Enabled(true)).unwrap();
    assert!(on.contains("deletevalue useplatformclock"));
    assert!(on.contains("disabledynamictick yes"));
    let off = m.apply_script(&TweakOption::Enabled(false)).unwrap();
    assert!(off.contains("useplatformclock true"));
    assert!(off.contains("disabledynamictick no"));
}

#[test]
fn ram_compression_state_is_read_back() {
    let t = disable_ram_compression();
    let m = powershell(&t);
    assert_eq!(m.initial_state(Some(Ok("Disabled\r\n".to_string()))).unwrap(), TweakOption::Enabled(true));
    assert_eq!(m.initial_state(Some(Ok("Enabled".to_string()))).unwrap(), TweakOption::Enabled(false));
}

#[test]
fn stopped_superfetch_reads_as_on() {
    let t = disable_superfetch();
    let m = powershell(&t);
    assert_eq!(m.initial_state(Some(Ok("Disabled".to_string()))).unwrap(), TweakOption::Enabled(true));
    assert_eq!(m.initial_state(Some(Ok("Enabled".to_string()))).unwrap(), TweakOption::Enabled(false));
}

#[test]
fn powershell_revert_needs_a_default() {
    let t = process_idle_tasks();
    match powershell(&t).revert_script() {
        Err(TweakError::DefaultNotFound { id }) => assert_eq!(id, TweakId::ProcessIdleTasks),
        other => panic!("unexpected {:?}", other),
    }
    let t = disable_superfetch();
    assert!(powershell(&t).revert_script().is_ok());
}
