//! Tasks on tweaks and the results they report: which method call a task
//! makes, and what its result says for each outcome of that call.
use vstd::prelude::*;
use crate::tweaks::{TweakId, TweakOption};

verus! {

/// Actions that can be performed on a tweak.
#[derive(Debug)]
pub enum TweakAction {
    Enable,
    Disable,
    SetOption(TweakOption),
    ReadInitialState,
}

impl TweakAction {
    /// A copy of this action.
    pub fn duplicate(&self) -> (r: TweakAction)
        ensures
            r == *self,
    {
        match self {
            TweakAction::Enable => TweakAction::Enable,
            TweakAction::Disable => TweakAction::Disable,
            TweakAction::SetOption(o) => TweakAction::SetOption(o.duplicate()),
            TweakAction::ReadInitialState => TweakAction::ReadInitialState,
        }
    }
}

/// The call into a tweak's method that an action makes.
#[derive(Debug)]
pub enum MethodCall {
    /// Apply the given option.
    Apply(TweakOption),
    /// Revert to the default.
    Revert,
    /// Read the option currently in force.
    ReadState,
}

/// The call for each action: enabling applies `Enabled(true)`, disabling
/// reverts, setting applies the option, and reading reads the state.
pub open spec fn call_for(action: TweakAction) -> MethodCall {
    match action {
        TweakAction::Enable => MethodCall::Apply(TweakOption::Enabled(true)),
        TweakAction::Disable => MethodCall::Revert,
        TweakAction::SetOption(o) => MethodCall::Apply(o),
        TweakAction::ReadInitialState => MethodCall::ReadState,
    }
}

/// The call an action makes, action by action: enabling applies the on
/// option, disabling reverts to the default, setting an option applies that
/// very option, and reading reads the state.
pub proof fn lemma_call_for(action: TweakAction)
    ensures
        action is Enable ==> call_for(action) == MethodCall::Apply(TweakOption::Enabled(true)),
        action is Disable ==> call_for(action) == MethodCall::Revert,
        action matches TweakAction::SetOption(o) ==> call_for(action) == MethodCall::Apply(o),
        action is ReadInitialState ==> call_for(action) == MethodCall::ReadState,
{
}

/// A task to be processed: a tweak and what to do with it.
#[derive(Debug)]
pub struct TweakTask {
    pub id: TweakId,
    pub action: TweakAction,
}

impl TweakTask {
    /// The call into the method that the action asks for.
    pub fn call(&self) -> (r: MethodCall)
        ensures
            r == call_for(self.action),
            self.action is Enable ==> r == MethodCall::Apply(TweakOption::Enabled(true)),
            self.action is Disable ==> r == MethodCall::Revert,
            self.action matches TweakAction::SetOption(o) ==> r == MethodCall::Apply(o),
            self.action is ReadInitialState ==> r == MethodCall::ReadState,
    {
        match &self.action {
            TweakAction::Enable => MethodCall::Apply(TweakOption::Enabled(true)),
            TweakAction::Disable => MethodCall::Revert,
            TweakAction::SetOption(o) => MethodCall::Apply(o.duplicate()),
            TweakAction::ReadInitialState => MethodCall::ReadState,
        }
    }
}

/// The result of a processed task.
#[derive(Debug)]
pub struct TweakResult {
    pub id: TweakId,
    pub success: bool,
    pub error: Option<String>,
    pub action: TweakAction,
    pub state: Option<TweakOption>,
}

/// The state a task leaves the tweak in when its call succeeds: on after
/// enabling, off after disabling, the option after setting it, and what was
/// read after reading.
pub open spec fn state_after(action: TweakAction, read: Option<TweakOption>) -> Option<TweakOption> {
    match action {
        TweakAction::Enable => Some(TweakOption::Enabled(true)),
        TweakAction::Disable => Some(TweakOption::Enabled(false)),
        TweakAction::SetOption(o) => Some(o),
        TweakAction::ReadInitialState => read,
    }
}

impl TweakResult {
    /// The result of a task from the outcome of its call: `Ok` with the
    /// option read (for a read) or `None` (for an apply or revert), or `Err`
    /// with the message of the failure. A success carries the state the
    /// tweak is now in; a failure carries the message and no state.
    pub fn from_outcome(task: TweakTask, outcome: Result<Option<TweakOption>, String>) -> (r: TweakResult)
        ensures
            r.id == task.id,
            r.action == task.action,
            match outcome {
                Ok(read) => r.success && r.error is None && r.state == state_after(task.action, read),
                Err(e) => !r.success && r.error == Some(e) && r.state is None,
            },
            outcome is Ok && task.action is Enable ==> r.state == Some(TweakOption::Enabled(true)),
            outcome is Ok && task.action is Disable ==> r.state == Some(TweakOption::Enabled(false)),
            outcome is Ok ==> (task.action matches TweakAction::SetOption(o) ==> r.state == Some(o)),
            outcome is Ok && task.action is ReadInitialState ==> (outcome matches Ok(read) && r.state == read),
    {
        let TweakTask { id, action } = task;
        match outcome {
            Ok(read) => {
                let state = match &action {
                    TweakAction::Enable => Some(TweakOption::Enabled(true)),
                    TweakAction::Disable => Some(TweakOption::Enabled(false)),
                    TweakAction::SetOption(o) => Some(o.duplicate()),
                    TweakAction::ReadInitialState => read,
                };
                TweakResult { id, success: true, error: None, action, state }
            },
            Err(e) => TweakResult { id, success: false, error: Some(e), action, state: None },
        }
    }
}

} // verus!
