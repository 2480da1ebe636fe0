use indexmap::IndexMap;
use oc_tool::errors::TweakError;
use oc_tool::tweaks::msr::method::{MSRTweak, MsrAction, MsrEvent, MsrState, MsrWritePhase};
use oc_tool::tweaks::registry::method::{
    RegistryApplyState, RegistryKeyValue, RegistryModification, RegistryTweak, RegistryWriteAction,
    NO_DEFAULT_ROLLBACK,
};
use oc_tool::tweaks::{TweakId, TweakOption};

const PATH: &str = "HKEY_LOCAL_MACHINE\\SYSTEM\\Test";

fn registry(with_default: bool) -> RegistryTweak {
    let mut entries = vec![(
        TweakOption::Enabled(true),
        vec![
            RegistryModification { path: PATH, key: "A", value: RegistryKeyValue::Dword(1) },
            RegistryModification { path: PATH, key: "B", value: RegistryKeyValue::Dword(2) },
        ],
    )];
    if with_default {
        entries.push((
            TweakOption::Enabled(false),
            vec![
                RegistryModification { path: PATH, key: "A", value: RegistryKeyValue::Dword(0) },
                RegistryModification { path: PATH, key: "B", value: RegistryKeyValue::Deleted },
            ],
        ));
    }
    RegistryTweak { id: TweakId::LargeSystemCache, options: IndexMap::from_iter(entries) }
}

/// Runs the apply machine, answering each write with the next outcome.
fn run(t: &RegistryTweak, outcomes: &[Result<(), String>]) -> (Vec<(String, bool)>, Result<(), TweakError>) {
    let mods = t.options.get(&TweakOption::Enabled(true)).unwrap();
    let mut written = Vec::new();
    let (mut state, mut action) = t.apply_start(mods);
    let mut k = 0;
    loop {
        match action {
            RegistryWriteAction::Finish(r) => return (written, r),
            RegistryWriteAction::Write(w) => {
                written.push((w.key.to_string(), matches!(w.value, RegistryKeyValue::Dword(v) if v > 0)));
                let (s, a) = t.apply_continue(mods, state, outcomes[k].clone());
                k += 1;
                state = s;
                action = a;
            }
        }
    }
}

#[test]
fn registry_apply_writes_every_modification() {
    let t = registry(true);
    let (written, result) = run(&t, &[Ok(()), Ok(())]);
    assert_eq!(written, vec![("A".to_string(), true), ("B".to_string(), true)]);
    assert!(result.is_ok());
}

#[test]
fn registry_apply_rolls_back_after_a_failed_write() {
    let t = registry(true);
    let (written, result) = run(&t, &[Ok(()), Err("denied".to_string()), Ok(()), Ok(())]);
    assert_eq!(
        written,
        vec![("A".to_string(), true), ("B".to_string(), true), ("A".to_string(), false), ("B".to_string(), false)]
    );
    match result {
        Err(TweakError::WriteFailed { message, .. }) => assert_eq!(message, "denied"),
        other => panic!("unexpected {:?}", other),
    }
}

#[test]
fn registry_failed_rollback_reports_both_errors() {
    let t = registry(true);
    let (_, result) = run(&t, &[Err("first".to_string()), Err("second".to_string())]);
    match result {
        Err(TweakError::RollbackFailed { apply_error, rollback_error, .. }) => {
            assert_eq!(apply_error, "first");
            assert_eq!(rollback_error, "second");
        }
        other => panic!("unexpected {:?}", other),
    }
    let t = registry(false);
    let (written, result) = run(&t, &[Err("first".to_string())]);
    assert_eq!(written.len(), 1);
    match result {
        Err(TweakError::RollbackFailed { rollback_error, .. }) => assert_eq!(rollback_error, NO_DEFAULT_ROLLBACK),
        other => panic!("unexpected {:?}", other),
    }
}

#[test]
fn registry_apply_of_nothing_finishes_at_once() {
    let t = registry(true);
    let none: Vec<RegistryModification> = Vec::new();
    let (state, action) = t.apply_start(&none);
    assert!(matches!(state, RegistryApplyState::Applying { written: 0 }));
    assert!(matches!(action, RegistryWriteAction::Finish(Ok(()))));
}

fn msr() -> MSRTweak {
    MSRTweak { id: TweakId::AutomaticIbrsEnable, readable: true, options: IndexMap::new() }
}

#[test]
fn register_write_reads_writes_and_checks_each_core() {
    let t = msr();
    let steps = vec![MsrState { index: 0xC000_0080, bit: 21, state: true }, MsrState { index: 0x10, bit: 0, state: false }];
    let cores = 2;
    let mut regs = std::collections::HashMap::new();
    let (mut state, mut action) = MSRTweak::write_start(&steps, cores);
    let mut log = Vec::new();
    loop {
        let event = match action {
            MsrAction::Finish(r) => {
                assert!(r.is_ok());
                break;
            }
            MsrAction::Read { index, core } => {
                log.push(format!("r{:x}@{}", index, core));
                MsrEvent::Value(*regs.get(&(index, core)).unwrap_or(&0b11u64))
            }
            MsrAction::Write { index, core, value } => {
                log.push(format!("w{:x}@{}={:x}", index, core, value));
                regs.insert((index, core), value);
                MsrEvent::Written
            }
        };
        let (s, a) = t.write_continue(&steps, cores, state, event);
        state = s;
        action = a;
    }
    assert_eq!(
        log,
        vec![
            "rc0000080@0", "wc0000080@0=200003", "rc0000080@0",
            "rc0000080@1", "wc0000080@1=200003", "rc0000080@1",
            "r10@0", "w10@0=2", "r10@0",
            "r10@1", "w10@1=2", "r10@1",
        ]
    );
}

#[test]
fn register_write_stops_on_a_wrong_read_back() {
    let t = msr();
    let steps = vec![MsrState { index: 0x10, bit: 4, state: true }];
    let (state, _) = MSRTweak::write_start(&steps, 1);
    let (state, action) = t.write_continue(&steps, 1, state, MsrEvent::Value(0));
    assert!(matches!(action, MsrAction::Write { value: 0x10, .. }));
    assert_eq!(state.phase, MsrWritePhase::Write);
    let (state, _) = t.write_continue(&steps, 1, state, MsrEvent::Written);
    let (_, action) = t.write_continue(&steps, 1, state, MsrEvent::Value(0));
    match action {
        MsrAction::Finish(Err(TweakError::MsrVerifyFailed { index, core, expected, found, .. })) => {
            assert_eq!((index, core, expected, found), (0x10, 0, 0x10, 0));
        }
        other => panic!("unexpected {:?}", other),
    }
}

#[test]
fn register_write_failures_stop_the_write() {
    let t = msr();
    let steps = vec![MsrState { index: 0x10, bit: 4, state: true }];
    let (state, _) = MSRTweak::write_start(&steps, 1);
    let (_, action) = t.write_continue(&steps, 1, state, MsrEvent::Failed("no driver".to_string()));
    assert!(matches!(action, MsrAction::Finish(Err(TweakError::ReadFailed { .. }))));
    let (state, _) = t.write_continue(&steps, 1, state, MsrEvent::Value(0));
    let (_, action) = t.write_continue(&steps, 1, state, MsrEvent::Failed("busy".to_string()));
    match action {
        MsrAction::Finish(Err(TweakError::WriteFailed { message, .. })) => assert_eq!(message, "busy"),
        other => panic!("unexpected {:?}", other),
    }
    let (_, action) = MSRTweak::write_start(&Vec::new(), 4);
    assert!(matches!(action, MsrAction::Finish(Ok(()))));
}
