use oc_tool::orchestrator::{MethodCall, TweakAction, TweakResult, TweakTask};
use oc_tool::session::{selected_index, Session};
use oc_tool::tweaks::registry::{enable_large_system_cache, system_responsiveness};
use oc_tool::tweaks::winapi::kill_all_non_critical_services;
use oc_tool::tweaks::{Tweak, TweakCategory, TweakId, TweakOption, TweakStatus};

fn table() -> Vec<(TweakId, Tweak)> {
    vec![
        (TweakId::LargeSystemCache, enable_large_system_cache()),
        (TweakId::SystemResponsiveness, system_responsiveness()),
        (TweakId::KillAllNonCriticalServices, kill_all_non_critical_services()),
    ]
}

#[test]
fn new_session_reads_every_state() {
    let (session, tasks) = Session::new(table());
    assert_eq!(session.pending_initial_state_reads, 3);
    assert!(!session.initial_states_loaded);
    assert_eq!(tasks.len(), 3);
    assert_eq!(tasks[1].id, TweakId::SystemResponsiveness);
    assert!(matches!(tasks[1].action, TweakAction::ReadInitialState));
    assert!(matches!(tasks[0].call(), MethodCall::ReadState));
}

#[test]
fn reads_count_down_and_finish_loading() {
    let (mut session, _) = Session::new(table());
    for (id, state) in [
        (TweakId::LargeSystemCache, TweakOption::Enabled(true)),
        (TweakId::SystemResponsiveness, TweakOption::Option("0".to_string())),
        (TweakId::KillAllNonCriticalServices, TweakOption::Enabled(false)),
    ] {
        let task = TweakTask { id, action: TweakAction::ReadInitialState };
        let result = TweakResult::from_outcome(task, Ok(Some(state)));
        assert!(session.update_tweak_state(result).is_none());
    }
    assert_eq!(session.pending_initial_state_reads, 0);
    assert!(session.initial_states_loaded);
    assert_eq!(session.tweaks[0].1.state, TweakOption::Enabled(true));
    assert_eq!(session.tweaks[1].1.state, TweakOption::Option("0".to_string()));
}

#[test]
fn failure_marks_tweak_and_asks_for_a_read() {
    let (mut session, _) = Session::new(table());
    let task = TweakTask { id: TweakId::LargeSystemCache, action: TweakAction::Enable };
    let result = TweakResult::from_outcome(task, Err("access denied".to_string()));
    assert!(!result.success);
    let again = session.update_tweak_state(result).unwrap();
    assert_eq!(again.id, TweakId::LargeSystemCache);
    assert!(matches!(again.action, TweakAction::ReadInitialState));
    match &session.tweaks[0].1.status {
        TweakStatus::Failed(m) => assert_eq!(m, "access denied"),
        other => panic!("unexpected {:?}", other),
    }
    assert_eq!(session.pending_initial_state_reads, 3);
}

#[test]
fn results_for_unknown_tweaks_change_nothing() {
    let (mut session, _) = Session::new(table());
    let task = TweakTask { id: TweakId::DisableDps, action: TweakAction::Disable };
    let result = TweakResult::from_outcome(task, Err("x".to_string()));
    assert!(session.update_tweak_state(result).is_none());
    assert!(matches!(session.tweaks[0].1.status, TweakStatus::Idle));
}

#[test]
fn toggle_sets_state_and_pending_reboot() {
    let (mut session, _) = Session::new(table());
    let task = session.toggle(TweakId::LargeSystemCache, true).unwrap();
    assert!(matches!(task.action, TweakAction::Enable));
    assert!(matches!(task.call(), MethodCall::Apply(TweakOption::Enabled(true))));
    let t = &session.tweaks[0].1;
    assert_eq!(t.state, TweakOption::Enabled(true));
    assert!(t.pending_reboot);
    assert!(matches!(t.status, TweakStatus::Busy));
    assert_eq!(session.count_tweaks_pending_reboot(), 1);
    let off = session.toggle(TweakId::LargeSystemCache, false).unwrap();
    assert!(matches!(off.call(), MethodCall::Revert));
    let done = TweakResult::from_outcome(off, Ok(None));
    assert_eq!(done.state, Some(TweakOption::Enabled(false)));
    session.update_tweak_state(done);
    assert!(matches!(session.tweaks[0].1.status, TweakStatus::Idle));
}

#[test]
fn button_runs_once_until_done() {
    let (mut session, _) = Session::new(table());
    let first = session.press_button(TweakId::KillAllNonCriticalServices);
    assert!(first.is_some());
    assert!(session.press_button(TweakId::KillAllNonCriticalServices).is_none());
    assert_eq!(session.count_tweaks_pending_reboot(), 0);
}

#[test]
fn selecting_an_option() {
    let (mut session, _) = Session::new(table());
    assert_eq!(selected_index(&session.tweaks[1].1), Some(0));
    let task = session.select_option(TweakId::SystemResponsiveness, 2).unwrap();
    match &task.action {
        TweakAction::SetOption(o) => assert_eq!(*o, TweakOption::Option("100".to_string())),
        other => panic!("unexpected {:?}", other),
    }
    assert_eq!(selected_index(&session.tweaks[1].1), Some(2));
    let done = TweakResult::from_outcome(task, Ok(None));
    assert_eq!(done.state, Some(TweakOption::Option("100".to_string())));
    session.update_tweak_state(done);
    assert_eq!(session.tweaks[1].1.state, TweakOption::Option("100".to_string()));
}

#[test]
fn categories_and_finishing() {
    let (mut session, _) = Session::new(table());
    assert_eq!(session.tweaks_in_category(TweakCategory::Memory), vec![TweakId::LargeSystemCache]);
    assert_eq!(session.tweaks_in_category(TweakCategory::Cpu), vec![]);
    assert_eq!(session.find(TweakId::SystemResponsiveness), Some(1));
    assert_eq!(session.find(TweakId::DisableDps), None);
    session.pending_initial_state_reads = 0;
    session.finish_updates();
    assert!(session.initial_states_loaded);
    assert_eq!(TweakCategory::left(), vec![TweakCategory::System, TweakCategory::Kernel, TweakCategory::Memory, TweakCategory::Graphics]);
    assert_eq!(TweakCategory::right(), vec![TweakCategory::Cpu]);
}
