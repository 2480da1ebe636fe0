//! What applying or reverting a tweak asks of the system. The method of each
//! tweak decides the step from its tables; carrying the step out is left to
//! the caller.
use vstd::prelude::*;
use crate::errors::TweakError;
use crate::indexed::key_position;
use crate::tweaks::msr::method::MsrState;
use crate::tweaks::powershell::method::option_position;
use crate::tweaks::registry::method::RegistryModification;
use crate::tweaks::{Tweak, TweakMethodKind, TweakOption, WinapiMethod};
use crate::tweaks::group_policy::method::GroupPolicyValue;

verus! {

/// One step of applying or reverting a tweak.
#[derive(Debug)]
pub enum TweakStep<'a> {
    /// Write these registry values, in order.
    WriteRegistry(&'a Vec<RegistryModification>),
    /// Set or clear these register bits on every core.
    WriteRegisters(&'a Vec<MsrState>),
    /// Run this PowerShell script.
    RunScript(&'static str),
    /// Grant (`true`) or withdraw (`false`) this user right.
    ChangeUserRight(&'static str, bool),
    /// Carry out this Windows API tweak (`true`) or undo it (`false`).
    CallWindows(&'a WinapiMethod, bool),
}

/// The step that applies `option` to `t`: the registry values, register
/// bits, script or user right of the option, or the tweak's own calls into
/// Windows; an option the tweak does not have is an error.
pub open spec fn planned_apply<'a>(t: &'a Tweak, option: TweakOption) -> Result<TweakStep<'a>, TweakError> {
    match t.method {
        TweakMethodKind::Registry(m) => {
            let p = key_position(m.entries(), option@);
            if p < 0 {
                Err::<TweakStep<'a>, TweakError>(TweakError::OptionNotFound { id: m.id, option: option })
            } else {
                Ok::<TweakStep<'a>, TweakError>(TweakStep::WriteRegistry(&m.entries()[p].1))
            }
        },
        TweakMethodKind::Msr(m) => {
            let p = key_position(m.entries(), option@);
            if p < 0 {
                Err::<TweakStep<'a>, TweakError>(TweakError::OptionNotFound { id: m.id, option: option })
            } else {
                Ok::<TweakStep<'a>, TweakError>(TweakStep::WriteRegisters(&m.entries()[p].1))
            }
        },
        TweakMethodKind::Powershell(m) => {
            let p = option_position(m.options@, option@, 0);
            if p < 0 {
                Err::<TweakStep<'a>, TweakError>(TweakError::OptionNotFound { id: m.id, option: option })
            } else {
                Ok::<TweakStep<'a>, TweakError>(TweakStep::RunScript(m.options@[p].1.script))
            }
        },
        TweakMethodKind::GroupPolicy(m) => {
            let p = key_position(m.entries(), option@);
            if p < 0 {
                Err::<TweakStep<'a>, TweakError>(TweakError::OptionNotFound { id: m.id, option: option })
            } else {
                Ok::<TweakStep<'a>, TweakError>(TweakStep::ChangeUserRight(m.key, m.entries()[p].1 == GroupPolicyValue::Enabled))
            }
        },
        TweakMethodKind::Winapi(w) => Ok::<TweakStep<'a>, TweakError>(TweakStep::CallWindows(&w, true)),
    }
}

/// The step that reverts `t`: that of its default option `Enabled(false)`,
/// or the undoing of its calls into Windows.
pub open spec fn planned_revert<'a>(t: &'a Tweak) -> Result<TweakStep<'a>, TweakError> {
    match t.method {
        TweakMethodKind::Registry(m) => {
            let p = key_position(m.entries(), TweakOption::Enabled(false)@);
            if p < 0 {
                Err::<TweakStep<'a>, TweakError>(TweakError::DefaultNotFound { id: m.id })
            } else {
                Ok::<TweakStep<'a>, TweakError>(TweakStep::WriteRegistry(&m.entries()[p].1))
            }
        },
        TweakMethodKind::Msr(m) => {
            let p = key_position(m.entries(), TweakOption::Enabled(false)@);
            if p < 0 {
                Err::<TweakStep<'a>, TweakError>(TweakError::DefaultNotFound { id: m.id })
            } else {
                Ok::<TweakStep<'a>, TweakError>(TweakStep::WriteRegisters(&m.entries()[p].1))
            }
        },
        TweakMethodKind::Powershell(m) => {
            let p = option_position(m.options@, TweakOption::Enabled(false)@, 0);
            if p < 0 {
                Err::<TweakStep<'a>, TweakError>(TweakError::DefaultNotFound { id: m.id })
            } else {
                Ok::<TweakStep<'a>, TweakError>(TweakStep::RunScript(m.options@[p].1.script))
            }
        },
        TweakMethodKind::GroupPolicy(m) => {
            let p = key_position(m.entries(), TweakOption::Enabled(false)@);
            if p < 0 {
                Err::<TweakStep<'a>, TweakError>(TweakError::DefaultNotFound { id: m.id })
            } else {
                Ok::<TweakStep<'a>, TweakError>(TweakStep::ChangeUserRight(m.key, m.entries()[p].1 == GroupPolicyValue::Enabled))
            }
        },
        TweakMethodKind::Winapi(w) => Ok::<TweakStep<'a>, TweakError>(TweakStep::CallWindows(&w, false)),
    }
}

/// Reverting is applying the default option: for a tweak of registry
/// values, register bits, a PowerShell script or a user right that has the
/// option `Enabled(false)`, the step that reverts it is the step that
/// applies that option.
pub proof fn lemma_revert_applies_default(t: &Tweak)
    requires
        !(t.method is Winapi),
        match t.method {
            TweakMethodKind::Registry(m) => key_position(m.entries(), TweakOption::Enabled(false)@) >= 0,
            TweakMethodKind::Msr(m) => key_position(m.entries(), TweakOption::Enabled(false)@) >= 0,
            TweakMethodKind::Powershell(m) => option_position(m.options@, TweakOption::Enabled(false)@, 0) >= 0,
            TweakMethodKind::GroupPolicy(m) => key_position(m.entries(), TweakOption::Enabled(false)@) >= 0,
            TweakMethodKind::Winapi(_) => false,
        },
    ensures
        planned_revert(t) == planned_apply(t, TweakOption::Enabled(false)),
{
}

impl Tweak {
    /// The step that applies `option`: the registry values, register bits,
    /// script or user right that the option maps to, or the tweak's own
    /// calls into Windows (which do not depend on the option). An option the
    /// tweak does not have is an error.
    pub fn apply_step(&self, option: &TweakOption) -> (r: Result<TweakStep<'_>, TweakError>)
        ensures
            r == planned_apply(self, *option),
    {
        match &self.method {
            TweakMethodKind::Registry(m) => match m.modifications_for(option) {
                Ok(mods) => Ok(TweakStep::WriteRegistry(mods)),
                Err(e) => Err(e),
            },
            TweakMethodKind::Msr(m) => match m.steps_for(option) {
                Ok(steps) => Ok(TweakStep::WriteRegisters(steps)),
                Err(e) => Err(e),
            },
            TweakMethodKind::Powershell(m) => match m.apply_script(option) {
                Ok(script) => Ok(TweakStep::RunScript(script)),
                Err(e) => Err(e),
            },
            TweakMethodKind::GroupPolicy(m) => match m.change_for(option) {
                Ok((key, grant)) => Ok(TweakStep::ChangeUserRight(key, grant)),
                Err(e) => Err(e),
            },
            TweakMethodKind::Winapi(w) => Ok(TweakStep::CallWindows(w, true)),
        }
    }

    /// The step that reverts the tweak: that of its default option
    /// `Enabled(false)`, or the undoing of its calls into Windows. Registry,
    /// register and group policy tweaks without a default option fail; a
    /// PowerShell tweak without one has nothing to do.
    pub fn revert_step(&self) -> (r: Result<TweakStep<'_>, TweakError>)
        ensures
            r == planned_revert(self),
    {
        match &self.method {
            TweakMethodKind::Registry(m) => match m.default_modifications() {
                Ok(mods) => Ok(TweakStep::WriteRegistry(mods)),
                Err(e) => Err(e),
            },
            TweakMethodKind::Msr(m) => match m.default_steps() {
                Ok(steps) => Ok(TweakStep::WriteRegisters(steps)),
                Err(e) => Err(e),
            },
            TweakMethodKind::Powershell(m) => match m.revert_script() {
                Ok(script) => Ok(TweakStep::RunScript(script)),
                Err(e) => Err(e),
            },
            TweakMethodKind::GroupPolicy(m) => match m.revert_change() {
                Ok((key, grant)) => Ok(TweakStep::ChangeUserRight(key, grant)),
                Err(e) => Err(e),
            },
            TweakMethodKind::Winapi(w) => Ok(TweakStep::CallWindows(w, false)),
        }
    }
}

} // verus!
