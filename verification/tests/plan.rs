use oc_tool::errors::TweakError;
use oc_tool::tweaks::msr::automatic_ibrs_enable;
use oc_tool::tweaks::group_policy::se_lock_memory_privilege;
use oc_tool::tweaks::plan::TweakStep;
use oc_tool::tweaks::powershell::{disable_success_auditing, process_idle_tasks};
use oc_tool::tweaks::registry::{enable_large_system_cache, system_responsiveness};
use oc_tool::tweaks::winapi::kill_explorer;
use oc_tool::tweaks::{TweakId, TweakOption};

#[test]
fn test_disable_success_auditing_apply() {
    let tweak = disable_success_auditing();
    let result = tweak.apply_step(&TweakOption::Enabled(true));
    assert!(result.is_ok());
}

#[test]
fn test_disable_success_auditing_revert() {
    let tweak = disable_success_auditing();
    let result = tweak.revert_step();
    assert!(result.is_ok());
}

#[test]
fn success_auditing_scripts() {
    let tweak = disable_success_auditing();
    match tweak.apply_step(&TweakOption::Enabled(true)) {
        Ok(TweakStep::RunScript(s)) => assert_eq!(s, "Auditpol /set /category:* /Success:disable"),
        other => panic!("unexpected step {:?}", other),
    }
    match tweak.revert_step() {
        Ok(TweakStep::RunScript(s)) => assert_eq!(s, "Auditpol /set /category:* /Success:enable"),
        other => panic!("unexpected step {:?}", other),
    }
}

#[test]
fn unknown_option_is_refused() {
    let tweak = enable_large_system_cache();
    match tweak.apply_step(&TweakOption::Option("Maximum".to_string())) {
        Err(TweakError::OptionNotFound { id, option }) => {
            assert_eq!(id, TweakId::LargeSystemCache);
            assert_eq!(option, TweakOption::Option("Maximum".to_string()));
        }
        other => panic!("unexpected step {:?}", other),
    }
}

#[test]
fn registry_revert_writes_default_values() {
    let tweak = enable_large_system_cache();
    match tweak.revert_step() {
        Ok(TweakStep::WriteRegistry(mods)) => {
            assert_eq!(mods.len(), 1);
            assert_eq!(mods[0].key, "LargeSystemCache");
        }
        other => panic!("unexpected step {:?}", other),
    }
}

#[test]
fn registry_tweak_without_default_cannot_revert() {
    let tweak = system_responsiveness();
    match tweak.revert_step() {
        Err(TweakError::DefaultNotFound { id }) => assert_eq!(id, TweakId::SystemResponsiveness),
        other => panic!("unexpected step {:?}", other),
    }
    match tweak.apply_step(&TweakOption::Option("100".to_string())) {
        Ok(TweakStep::WriteRegistry(mods)) => assert_eq!(mods.len(), 1),
        other => panic!("unexpected step {:?}", other),
    }
}

#[test]
fn action_without_default_cannot_revert() {
    let tweak = process_idle_tasks();
    match tweak.revert_step() {
        Err(TweakError::DefaultNotFound { id }) => assert_eq!(id, TweakId::ProcessIdleTasks),
        other => panic!("unexpected step {:?}", other),
    }
    match tweak.apply_step(&TweakOption::Run) {
        Ok(TweakStep::RunScript(s)) => assert_eq!(s, "rundll32.exe advapi32.dll,ProcessIdleTasks"),
        other => panic!("unexpected step {:?}", other),
    }
}

#[test]
fn register_and_right_steps() {
    let tweak = automatic_ibrs_enable();
    match tweak.apply_step(&TweakOption::Enabled(true)) {
        Ok(TweakStep::WriteRegisters(steps)) => {
            assert_eq!(steps.len(), 1);
            assert!(steps[0].state);
            assert_eq!(steps[0].bit, 21);
        }
        other => panic!("unexpected step {:?}", other),
    }
    let right = se_lock_memory_privilege();
    assert!(matches!(right.apply_step(&TweakOption::Enabled(true)), Ok(TweakStep::ChangeUserRight("SeLockMemoryPrivilege", true))));
    assert!(matches!(right.revert_step(), Ok(TweakStep::ChangeUserRight("SeLockMemoryPrivilege", false))));
}

#[test]
fn windows_tweaks_ignore_the_option() {
    let tweak = kill_explorer();
    assert!(matches!(tweak.apply_step(&TweakOption::Enabled(false)), Ok(TweakStep::CallWindows(_, true))));
    assert!(matches!(tweak.revert_step(), Ok(TweakStep::CallWindows(_, false))));
}
