//! Turning processor idle states off through the `IdleDisable` setting of
//! the active power scheme.
use vstd::prelude::*;
use crate::errors::TweakError;
use crate::tweaks::{TweakId, TweakOption};

verus! {

/// The tweak that disables processor idle states (C-states).
#[derive(Debug)]
pub struct DisableProcessIdleStates {
    pub id: TweakId,
}

impl DisableProcessIdleStates {
    pub fn new() -> (r: Self)
        ensures
            r.id == TweakId::DisableProcessIdleStates,
    {
        Self { id: TweakId::DisableProcessIdleStates }
    }

    /// The option in force, from the `IdleDisable` value of the active scheme
    /// (or the message of a failed read): enabled exactly when the value is 1.
    pub fn initial_state(&self, value: Result<u32, String>) -> (r: Result<TweakOption, TweakError>)
        ensures
            match value {
                Ok(v) => r == Ok::<TweakOption, TweakError>(TweakOption::Enabled(v == 1)),
                Err(e) => r == Err::<TweakOption, TweakError>(TweakError::ReadFailed { id: self.id, message: e }),
            },
    {
        match value {
            Ok(v) => Ok(TweakOption::Enabled(v == 1)),
            Err(e) => Err(TweakError::ReadFailed { id: self.id, message: e }),
        }
    }

    /// The `IdleDisable` value written to apply the tweak.
    pub fn apply_value(&self) -> (r: u32)
        ensures
            r == 1,
    {
        1
    }

    /// The `IdleDisable` value written to revert the tweak.
    pub fn revert_value(&self) -> (r: u32)
        ensures
            r == 0,
    {
        0
    }
}

} // verus!
