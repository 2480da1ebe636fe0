//! The errors of the tweaks, each with the message it is shown with.
use vstd::prelude::*;
use vstd::string::StringExecFns;
use crate::tweaks::{TweakId, TweakOption};

verus! {

/// Errors raised while turning a registry path into a hive and a subkey,
/// and while reading or writing registry values.
#[derive(Debug)]
pub enum RegistryTweakError {
    InvalidKeyFormat(String),
    UnsupportedHive(String),
    KeyOpenError(String),
    ReadValueError(String),
    SetValueError(String),
    CreateError(String),
}

/// The text of a registry error: what failed, then the detail.
pub open spec fn registry_error_text(e: RegistryTweakError) -> Seq<char> {
    match e {
        RegistryTweakError::InvalidKeyFormat(s) => "Invalid registry key format: "@ + s@,
        RegistryTweakError::UnsupportedHive(s) => "Unsupported registry hive: "@ + s@,
        RegistryTweakError::KeyOpenError(s) => "Failed to open registry key: "@ + s@,
        RegistryTweakError::ReadValueError(s) => "Failed to read registry value: "@ + s@,
        RegistryTweakError::SetValueError(s) => "Failed to set registry value: "@ + s@,
        RegistryTweakError::CreateError(s) => "Failed to create registry key: "@ + s@,
    }
}

impl RegistryTweakError {
    /// The message shown for the error.
    pub fn message(&self) -> (r: String)
        ensures
            r@ == registry_error_text(*self),
    {
        match self {
            RegistryTweakError::InvalidKeyFormat(s) => String::from_str("Invalid registry key format: ").concat(s.as_str()),
            RegistryTweakError::UnsupportedHive(s) => String::from_str("Unsupported registry hive: ").concat(s.as_str()),
            RegistryTweakError::KeyOpenError(s) => String::from_str("Failed to open registry key: ").concat(s.as_str()),
            RegistryTweakError::ReadValueError(s) => String::from_str("Failed to read registry value: ").concat(s.as_str()),
            RegistryTweakError::SetValueError(s) => String::from_str("Failed to set registry value: ").concat(s.as_str()),
            RegistryTweakError::CreateError(s) => String::from_str("Failed to create registry key: ").concat(s.as_str()),
        }
    }
}

/// Errors of the group policy layer.
#[derive(Debug)]
pub enum GroupPolicyTweakError {
    KeyOpenError(String),
    SetValueError(String),
    DeleteValueError(String),
    CreateError(String),
    ReadValueError(String),
}

/// The text of a group policy error: what failed, then the detail.
pub open spec fn group_policy_error_text(e: GroupPolicyTweakError) -> Seq<char> {
    match e {
        GroupPolicyTweakError::KeyOpenError(s) => "Failed to open group policy key: "@ + s@,
        GroupPolicyTweakError::SetValueError(s) => "Failed to set group policy value: "@ + s@,
        GroupPolicyTweakError::DeleteValueError(s) => "Failed to delete group policy value: "@ + s@,
        GroupPolicyTweakError::CreateError(s) => "Failed to create group policy key: "@ + s@,
        GroupPolicyTweakError::ReadValueError(s) => "Failed to read group policy value: "@ + s@,
    }
}

impl GroupPolicyTweakError {
    /// The message shown for the error.
    pub fn message(&self) -> (r: String)
        ensures
            r@ == group_policy_error_text(*self),
    {
        match self {
            GroupPolicyTweakError::KeyOpenError(s) => String::from_str("Failed to open group policy key: ").concat(s.as_str()),
            GroupPolicyTweakError::SetValueError(s) => String::from_str("Failed to set group policy value: ").concat(s.as_str()),
            GroupPolicyTweakError::DeleteValueError(s) => String::from_str("Failed to delete group policy value: ").concat(s.as_str()),
            GroupPolicyTweakError::CreateError(s) => String::from_str("Failed to create group policy key: ").concat(s.as_str()),
            GroupPolicyTweakError::ReadValueError(s) => String::from_str("Failed to read group policy value: ").concat(s.as_str()),
        }
    }
}

/// Errors that the tweak methods report.
#[derive(Debug)]
pub enum TweakError {
    /// The tweak has no entry for the requested option.
    OptionNotFound { id: TweakId, option: TweakOption },
    /// The tweak has no entry for the default option `Enabled(false)`.
    DefaultNotFound { id: TweakId },
    /// The tweak has no options at all.
    NoOptions { id: TweakId },
    /// Reading a value from the system failed.
    ReadFailed { id: TweakId, message: String },
    /// Writing a value to the system failed.
    WriteFailed { id: TweakId, message: String },
    /// Applying failed, and so did the rollback that followed.
    RollbackFailed { id: TweakId, apply_error: String, rollback_error: String },
    /// What the tweak looked for on the system is not there.
    NotFound { id: TweakId },
    /// A model-specific register read back a value other than the one written.
    MsrVerifyFailed { id: TweakId, index: u32, core: u32, expected: u64, found: u64 },
}

impl TweakError {
    /// The tweak the error is about.
    pub fn id(&self) -> (r: TweakId)
        ensures
            r == match *self {
                TweakError::OptionNotFound { id, .. } => id,
                TweakError::DefaultNotFound { id } => id,
                TweakError::NoOptions { id } => id,
                TweakError::ReadFailed { id, .. } => id,
                TweakError::WriteFailed { id, .. } => id,
                TweakError::RollbackFailed { id, .. } => id,
                TweakError::NotFound { id } => id,
                TweakError::MsrVerifyFailed { id, .. } => id,
            },
    {
        match self {
            TweakError::OptionNotFound { id, .. } => *id,
            TweakError::DefaultNotFound { id } => *id,
            TweakError::NoOptions { id } => *id,
            TweakError::ReadFailed { id, .. } => *id,
            TweakError::WriteFailed { id, .. } => *id,
            TweakError::RollbackFailed { id, .. } => *id,
            TweakError::NotFound { id } => *id,
            TweakError::MsrVerifyFailed { id, .. } => *id,
        }
    }
}

} // verus!
