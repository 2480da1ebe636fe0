//! Group policy tweaks: each option grants or withdraws one user right of
//! the current user. This module decides from the rights the user holds
//! which option is in force and what change to make.
use vstd::prelude::*;
use indexmap::IndexMap;
use crate::errors::TweakError;
use crate::indexed::{
    key_position, policy_option_entries, policy_options_get, policy_options_get_index,
    policy_options_len,
};
use crate::text::str_equal;
use crate::tweaks::{OptionView, TweakId, TweakOption};

verus! {

/// Whether a user right is granted.
#[derive(Debug, Clone, Copy, PartialEq, Eq, Structural)]
pub enum GroupPolicyValue {
    Enabled,
    Disabled,
}

/// A tweak that grants or withdraws the user right named `key`.
#[derive(Debug)]
pub struct GroupPolicyTweak {
    pub id: TweakId,
    /// The name of the right, such as `SeLockMemoryPrivilege`.
    pub key: &'static str,
    pub options: IndexMap<TweakOption, GroupPolicyValue>,
}

/// An option table as values: each option with the state of the right.
pub open spec fn policy_table_view(entries: Seq<(TweakOption, GroupPolicyValue)>) -> Seq<(OptionView, GroupPolicyValue)> {
    entries.map_values(|e: (TweakOption, GroupPolicyValue)| (e.0@, e.1))
}

/// The first option whose value is `v`, or -1.
pub open spec fn first_with_value(entries: Seq<(TweakOption, GroupPolicyValue)>, v: GroupPolicyValue, i: int) -> int
    decreases entries.len() - i,
{
    if i < 0 || i >= entries.len() {
        -1
    } else if entries[i].1 == v {
        i
    } else {
        first_with_value(entries, v, i + 1)
    }
}

impl GroupPolicyTweak {
    /// What the option table holds, in order.
    pub open spec fn entries(&self) -> Seq<(TweakOption, GroupPolicyValue)> {
        policy_option_entries(self.options)
    }

    /// Whether the right is among the rights the user holds.
    #[verifier::loop_isolation(false)]
    pub fn value_from_rights(&self, rights: &Vec<String>) -> (r: GroupPolicyValue)
        ensures
            (r == GroupPolicyValue::Enabled) == (exists|i: int| 0 <= i < rights.len() && #[trigger] rights@[i]@ == self.key@),
    {
        let mut i: usize = 0;
        while i < rights.len()
            invariant
                i <= rights.len(),
                forall|j: int| 0 <= j < i ==> #[trigger] rights@[j]@ != self.key@,
            decreases rights.len() - i,
        {
            if str_equal(rights[i].as_str(), self.key) {
                return GroupPolicyValue::Enabled;
            }
            i = i + 1;
        }
        GroupPolicyValue::Disabled
    }

    /// The option currently in force, given the value of the right (or the
    /// message of a failed read): the first option with that value, or
    /// `Enabled(false)` when none has it.
    #[verifier::loop_isolation(false)]
    pub fn initial_state(&self, current: Result<GroupPolicyValue, String>) -> (r: Result<TweakOption, TweakError>)
        ensures
            match current {
                Err(e) => r == Err::<TweakOption, TweakError>(TweakError::ReadFailed { id: self.id, message: e }),
                Ok(v) => {
                    let p = first_with_value(self.entries(), v, 0);
                    if p >= 0 {
                        r == Ok::<TweakOption, TweakError>(self.entries()[p].0)
                    } else {
                        r == Ok::<TweakOption, TweakError>(TweakOption::Enabled(false))
                    }
                },
            },
    {
        match current {
            Err(e) => Err(TweakError::ReadFailed { id: self.id, message: e }),
            Ok(v) => {
                let n = policy_options_len(&self.options);
                let mut i: usize = 0;
                while i < n
                    invariant
                        n == self.entries().len(),
                        i <= n,
                        first_with_value(self.entries(), v, 0) == first_with_value(self.entries(), v, i as int),
                    decreases n - i,
                {
                    match policy_options_get_index(&self.options, i) {
                        Some((option, value)) => {
                            if *value == v {
                                return Ok(option.duplicate());
                            }
                        },
                        None => {},
                    }
                    i = i + 1;
                }
                Ok(TweakOption::Enabled(false))
            },
        }
    }

    /// The change that applies `option`: the right to change and whether to
    /// grant (`true`) or withdraw (`false`) it.
    pub fn change_for(&self, option: &TweakOption) -> (r: Result<(&'static str, bool), TweakError>)
        ensures
            ({
                let p = key_position(self.entries(), option@);
                if p < 0 {
                    r == Err::<(&'static str, bool), TweakError>(TweakError::OptionNotFound { id: self.id, option: *option })
                } else {
                    r == Ok::<(&'static str, bool), TweakError>((self.key, self.entries()[p].1 == GroupPolicyValue::Enabled))
                }
            }),
    {
        match policy_options_get(&self.options, option) {
            Some(value) => Ok((self.key, *value == GroupPolicyValue::Enabled)),
            None => Err(TweakError::OptionNotFound { id: self.id, option: option.duplicate() }),
        }
    }

    /// The change that reverts the tweak: that of the default option
    /// `Enabled(false)`.
    pub fn revert_change(&self) -> (r: Result<(&'static str, bool), TweakError>)
        ensures
            ({
                let p = key_position(self.entries(), TweakOption::Enabled(false)@);
                if p < 0 {
                    r == Err::<(&'static str, bool), TweakError>(TweakError::DefaultNotFound { id: self.id })
                } else {
                    r == Ok::<(&'static str, bool), TweakError>((self.key, self.entries()[p].1 == GroupPolicyValue::Enabled))
                }
            }),
    {
        let default_option = TweakOption::Enabled(false);
        match policy_options_get(&self.options, &default_option) {
            Some(value) => Ok((self.key, *value == GroupPolicyValue::Enabled)),
            None => Err(TweakError::DefaultNotFound { id: self.id }),
        }
    }
}

/// Whether withdrawing a right went well: the call succeeded, or failed
/// with Windows error 2 (the user never held the right).
pub fn removal_succeeded(error_code: Option<u32>) -> (r: bool)
    ensures
        r == (error_code is None || error_code == Some(2u32)),
{
    match error_code {
        None => true,
        Some(code) => code == 2,
    }
}

} // verus!
