//! PowerShell tweaks: each option runs a script, and an optional read
//! script prints the current state. This module decides from that output
//! which option is in force and picks the script to run.
use vstd::prelude::*;
use crate::errors::TweakError;
use crate::indexed::keys_distinct;
use crate::text::{chars_of, contains_chars, contains_seq, trim_chars, trimmed};
use crate::tweaks::{TweakId, TweakOption, OptionView};

verus! {

/// The script of one option, and the text that the read script's output
/// contains when that option is in force.
#[derive(Debug)]
pub struct PowershellAction {
    pub script: &'static str,
    pub state: Option<&'static str>,
}

/// A tweak driven by PowerShell scripts, one action per option.
#[derive(Debug)]
pub struct PowershellTweak {
    pub id: TweakId,
    /// Script that prints the current state of the tweak.
    pub read_script: Option<&'static str>,
    /// The action of each option; no option occurs twice.
    pub options: Vec<(TweakOption, PowershellAction)>,
}

/// The actions of a tweak, each keyed by its option as a value.
pub open spec fn actions_view(options: Seq<(TweakOption, PowershellAction)>) -> Seq<(OptionView, PowershellAction)> {
    options.map_values(|e: (TweakOption, PowershellAction)| (e.0@, e.1))
}

/// The position of the first action whose state text occurs in `current`,
/// or -1 when there is none.
pub open spec fn first_state_match(options: Seq<(TweakOption, PowershellAction)>, current: Seq<char>, i: int) -> int
    decreases options.len() - i,
{
    if i < 0 || i >= options.len() {
        -1
    } else if options[i].1.state matches Some(st) && contains_seq(current, st@) {
        i
    } else {
        first_state_match(options, current, i + 1)
    }
}

/// The position of the first entry whose key is `k`, or -1.
pub open spec fn option_position(options: Seq<(TweakOption, PowershellAction)>, k: OptionView, i: int) -> int
    decreases options.len() - i,
{
    if i < 0 || i >= options.len() {
        -1
    } else if options[i].0@ == k {
        i
    } else {
        option_position(options, k, i + 1)
    }
}

proof fn lemma_option_position_bound(options: Seq<(TweakOption, PowershellAction)>, k: OptionView, i: int)
    ensures
        option_position(options, k, i) < options.len(),
        option_position(options, k, i) >= -1,
    decreases options.len() - i,
{
    if 0 <= i < options.len() && options[i].0@ != k {
        lemma_option_position_bound(options, k, i + 1);
    }
}

impl PowershellTweak {
    /// No option occurs twice.
    pub open spec fn wf(&self) -> bool {
        keys_distinct(self.options@)
    }

    /// The option currently in force. Without a read script the tweak is
    /// taken to be at `Enabled(false)`. Otherwise `script_output` is what the
    /// read script printed (or the message of its failure); the output is
    /// trimmed of surrounding white space, and the first option whose state
    /// text occurs in it is the answer, or `Enabled(false)` when none does.
    #[verifier::loop_isolation(false)]
    pub fn initial_state(&self, script_output: Option<Result<String, String>>) -> (r: Result<TweakOption, TweakError>)
        requires
            self.read_script is Some ==> script_output is Some,
        ensures
            self.read_script is None ==> r == Ok::<TweakOption, TweakError>(TweakOption::Enabled(false)),
            self.read_script is Some ==> match script_output {
                Some(Err(e)) => r == Err::<TweakOption, TweakError>(TweakError::ReadFailed { id: self.id, message: e }),
                Some(Ok(out)) => {
                    let p = first_state_match(self.options@, trimmed(out@), 0);
                    if p >= 0 {
                        r == Ok::<TweakOption, TweakError>(self.options@[p].0)
                    } else {
                        r == Ok::<TweakOption, TweakError>(TweakOption::Enabled(false))
                    }
                },
                None => false,
            },
    {
        if self.read_script.is_none() {
            return Ok(TweakOption::Enabled(false));
        }
        match script_output {
            None => Ok(TweakOption::Enabled(false)),
            Some(Err(e)) => Err(TweakError::ReadFailed { id: self.id, message: e }),
            Some(Ok(out)) => {
                let raw = chars_of(out.as_str());
                let current = trim_chars(&raw);
                let mut i: usize = 0;
                while i < self.options.len()
                    invariant
                        i <= self.options.len(),
                        current@ == trimmed(out@),
                        first_state_match(self.options@, current@, 0) == first_state_match(self.options@, current@, i as int),
                    decreases self.options.len() - i,
                {
                    match self.options[i].1.state {
                        Some(st) => {
                            let stc = chars_of(st);
                            if contains_chars(&current, &stc) {
                                return Ok(self.options[i].0.duplicate());
                            }
                        },
                        None => {},
                    }
                    i = i + 1;
                }
                Ok(TweakOption::Enabled(false))
            },
        }
    }

    #[verifier::loop_isolation(false)]
    fn find_action(&self, option: &TweakOption) -> (r: Option<usize>)
        ensures
            option_position(self.options@, option@, 0) < 0 ==> r is None,
            option_position(self.options@, option@, 0) >= 0 ==> r is Some,
            r matches Some(i) ==> i as int == option_position(self.options@, option@, 0),
            r matches Some(i) ==> i < self.options@.len(),
    {
        let mut i: usize = 0;
        while i < self.options.len()
            invariant
                i <= self.options.len(),
                option_position(self.options@, option@, 0) == option_position(self.options@, option@, i as int),
            decreases self.options.len() - i,
        {
            if self.options[i].0.same_as(option) {
                return Some(i);
            }
            i = i + 1;
        }
        None
    }

    /// The script that applies `option`.
    pub fn apply_script(&self, option: &TweakOption) -> (r: Result<&'static str, TweakError>)
        ensures
            ({
                let p = option_position(self.options@, option@, 0);
                if p < 0 {
                    r == Err::<&'static str, TweakError>(TweakError::OptionNotFound { id: self.id, option: *option })
                } else {
                    r == Ok::<&'static str, TweakError>(self.options@[p].1.script)
                }
            }),
    {
        proof {
            lemma_option_position_bound(self.options@, option@, 0);
        }
        match self.find_action(option) {
            Some(i) => {
                assert(i as int == option_position(self.options@, option@, 0));
                let sc = self.options[i].1.script;
                assert(sc == self.options@[i as int].1.script);
                Ok(sc)
            },
            None => Err(TweakError::OptionNotFound { id: self.id, option: option.duplicate() }),
        }
    }

    /// The script that reverts the tweak: that of the default option
    /// `Enabled(false)`. A tweak without a default option cannot be
    /// reverted: `DefaultNotFound`.
    pub fn revert_script(&self) -> (r: Result<&'static str, TweakError>)
        ensures
            ({
                let p = option_position(self.options@, TweakOption::Enabled(false)@, 0);
                if p < 0 {
                    r == Err::<&'static str, TweakError>(TweakError::DefaultNotFound { id: self.id })
                } else {
                    r == Ok::<&'static str, TweakError>(self.options@[p].1.script)
                }
            }),
    {
        let default_option = TweakOption::Enabled(false);
        proof {
            lemma_option_position_bound(self.options@, default_option@, 0);
        }
        match self.find_action(&default_option) {
            Some(i) => Ok(self.options[i].1.script),
            None => Err(TweakError::DefaultNotFound { id: self.id }),
        }
    }
}

} // verus!
