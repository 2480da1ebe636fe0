//! Ending the Windows Explorer shell and keeping it from restarting, through
//! the `AutoRestartShell` value of the Winlogon key.
use vstd::prelude::*;
use crate::text::{eq_ignore_ascii_case, eq_ignore_ascii_case_spec};
use crate::tweaks::{TweakId, TweakOption};

verus! {

/// The key that holds `AutoRestartShell`, under `HKEY_LOCAL_MACHINE`.
pub const WINLOGON_KEY_PATH: &'static str = "SOFTWARE\\Microsoft\\Windows NT\\CurrentVersion\\Winlogon";

/// The name of the value that makes Windows restart the shell.
pub const AUTO_RESTART_VALUE_NAME: &'static str = "AutoRestartShell";

/// The executable of the shell.
pub const EXPLORER_EXE: &'static str = "explorer.exe";

/// The path from which the shell is started again.
pub const EXPLORER_PATH: &'static str = "C:\\Windows\\explorer.exe";

/// The tweak that ends Explorer.
#[derive(Debug)]
pub struct KillExplorerTweak {
    pub id: TweakId,
}

/// Whether a process name is that of the shell, ignoring ASCII case.
pub open spec fn is_explorer_name(name: Seq<char>) -> bool {
    eq_ignore_ascii_case_spec(name, EXPLORER_EXE@)
}

impl KillExplorerTweak {
    pub fn new() -> (r: Self)
        ensures
            r.id == TweakId::KillExplorer,
    {
        Self { id: TweakId::KillExplorer }
    }

    /// Whether a process name is `explorer.exe`, ignoring ASCII case.
    pub fn is_explorer_process(name: &str) -> (r: bool)
        ensures
            r == is_explorer_name(name@),
    {
        eq_ignore_ascii_case(name, EXPLORER_EXE)
    }

    /// Whether Explorer is among the running processes.
    pub fn is_explorer_running(process_names: &Vec<String>) -> (r: bool)
        ensures
            r == exists|i: int| 0 <= i < process_names.len() && is_explorer_name(#[trigger] process_names@[i]@),
    {
        let mut i: usize = 0;
        while i < process_names.len()
            invariant
                i <= process_names.len(),
                forall|j: int| 0 <= j < i ==> !is_explorer_name(#[trigger] process_names@[j]@),
            decreases process_names.len() - i,
        {
            if Self::is_explorer_process(process_names[i].as_str()) {
                return true;
            }
            i = i + 1;
        }
        false
    }

    /// Whether the shell restarts by itself, from the `AutoRestartShell`
    /// value (`None` when it is absent or unreadable, which counts as off).
    pub fn auto_restart_enabled(value: Option<u32>) -> (r: bool)
        ensures
            r == (value == Some(1u32)),
    {
        match value {
            Some(v) => v == 1,
            None => false,
        }
    }

    /// The tweak is in force when Explorer is not running and does not
    /// restart by itself.
    pub fn initial_state(&self, explorer_running: bool, auto_restart_enabled: bool) -> (r: TweakOption)
        ensures
            r == TweakOption::Enabled(!explorer_running && !auto_restart_enabled),
    {
        if !explorer_running && !auto_restart_enabled {
            TweakOption::Enabled(true)
        } else {
            TweakOption::Enabled(false)
        }
    }

    /// The `AutoRestartShell` value that turns automatic restart on or off.
    pub fn auto_restart_value(enable: bool) -> (r: u32)
        ensures
            r == (if enable { 1u32 } else { 0u32 }),
    {
        if enable {
            1
        } else {
            0
        }
    }
}

} // verus!
