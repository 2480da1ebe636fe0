//! Switching the display to its lowest refresh rate and, among the modes with
//! that rate, its narrowest resolution.
use vstd::prelude::*;
use crate::errors::TweakError;
use crate::text::{chars_of, decimal, decimal_chars, push_all, string_from_chars};
use crate::tweaks::{TweakId, TweakOption};

verus! {

/// A display mode: width and height in pixels, refresh rate in hertz.
#[derive(Debug, Clone, Copy, PartialEq, Eq, Structural)]
pub struct DisplaySettingsType {
    pub width: i32,
    pub height: i32,
    pub refresh_rate: i32,
}

/// The code that `ChangeDisplaySettingsW` returns on success.
pub const DISP_CHANGE_SUCCESSFUL: i32 = 0;

/// The tweak that switches to a low display mode, and back to the mode that
/// was in use when the tool started.
#[derive(Debug)]
pub struct LowResMode {
    pub id: TweakId,
    pub default: DisplaySettingsType,
    pub target_state: DisplaySettingsType,
}

/// `k` is the first mode with the lowest refresh rate and, among the modes
/// with that rate, the lowest width.
pub open spec fn is_lowest_mode(modes: Seq<DisplaySettingsType>, k: int) -> bool {
    &&& 0 <= k < modes.len()
    &&& forall|j: int| 0 <= j < modes.len() ==> modes[k].refresh_rate <= #[trigger] modes[j].refresh_rate
    &&& forall|j: int| 0 <= j < modes.len() && modes[j].refresh_rate == modes[k].refresh_rate ==> modes[k].width <= #[trigger] modes[j].width
    &&& forall|j: int| 0 <= j < k ==> !(#[trigger] modes[j].refresh_rate == modes[k].refresh_rate && modes[j].width == modes[k].width)
}

/// The text that describes the tweak for a given target mode.
pub open spec fn low_res_description(t: DisplaySettingsType) -> Seq<char> {
    "Sets the display to lower resolution and refresh rate to reduce GPU load and improve performance -> "@
        + decimal(t.width as int) + "x"@ + decimal(t.height as int) + " @"@ + decimal(t.refresh_rate as int) + "hz."@
}

impl LowResMode {
    /// The position of the lowest mode: first the lowest refresh rate, then,
    /// among the modes with that rate, the first of lowest width.
    pub fn lowest_mode_index(modes: &Vec<DisplaySettingsType>) -> (k: usize)
        requires
            modes.len() > 0,
        ensures
            is_lowest_mode(modes@, k as int),
    {
        let mut best: usize = 0;
        let mut i: usize = 1;
        while i < modes.len()
            invariant
                0 <= best < modes.len(),
                1 <= i <= modes.len(),
                forall|j: int| 0 <= j < i ==> modes@[best as int].refresh_rate <= #[trigger] modes@[j].refresh_rate,
            decreases modes.len() - i,
        {
            if modes[i].refresh_rate < modes[best].refresh_rate {
                best = i;
            }
            i = i + 1;
        }
        let rate = modes[best].refresh_rate;
        let mut k: usize = best;
        let mut i: usize = 0;
        while i < modes.len()
            invariant
                0 <= k < modes.len(),
                i <= modes.len(),
                modes@[k as int].refresh_rate == rate,
                forall|j: int| 0 <= j < modes.len() ==> rate <= #[trigger] modes@[j].refresh_rate,
                k < i || k == best,
                forall|j: int| 0 <= j < i && modes@[j].refresh_rate == rate ==> modes@[k as int].width <= #[trigger] modes@[j].width,
                forall|j: int| 0 <= j < i && j < k ==> !(#[trigger] modes@[j].refresh_rate == rate && modes@[j].width == modes@[k as int].width),
                i <= k ==> forall|j: int| 0 <= j < i ==> !(#[trigger] modes@[j].refresh_rate == rate && modes@[j].width <= modes@[k as int].width),
            decreases modes.len() - i,
        {
            if modes[i].refresh_rate == rate && (modes[i].width < modes[k].width || (i < k && modes[i].width == modes[k].width)) {
                k = i;
            }
            i = i + 1;
        }
        k
    }

    /// The tweak for the display modes the system offers and the mode in
    /// use: the target is the lowest mode, the default the mode in use.
    pub fn from_display_settings(modes: &Vec<DisplaySettingsType>, current: DisplaySettingsType) -> (r: Self)
        requires
            modes.len() > 0,
        ensures
            r.id == TweakId::LowResMode,
            r.default == current,
            exists|k: int| is_lowest_mode(modes@, k) && r.target_state == modes@[k],
    {
        let k = Self::lowest_mode_index(modes);
        Self { id: TweakId::LowResMode, default: current, target_state: modes[k] }
    }

    /// The option in force: enabled exactly when the last mode that the
    /// system lists equals the target mode.
    pub fn initial_state(&self, modes: &Vec<DisplaySettingsType>) -> (r: TweakOption)
        requires
            modes.len() > 0,
        ensures
            r == TweakOption::Enabled(modes@.last() == self.target_state),
    {
        let current = modes[modes.len() - 1];
        TweakOption::Enabled(current == self.target_state)
    }

    /// The result of a change of display mode, from the code that
    /// `ChangeDisplaySettingsW` returned.
    pub fn change_outcome(&self, code: i32) -> (r: Result<(), TweakError>)
        ensures
            code == DISP_CHANGE_SUCCESSFUL ==> r is Ok,
            code != DISP_CHANGE_SUCCESSFUL ==> (r matches Err(TweakError::WriteFailed { id, .. }) && id == self.id),
    {
        if code == DISP_CHANGE_SUCCESSFUL {
            Ok(())
        } else {
            let msg = chars_of("Failed to change display settings. Error code: ");
            let mut v: Vec<char> = msg;
            let d = decimal_chars(code);
            push_all(&mut v, &d);
            Err(TweakError::WriteFailed { id: self.id, message: string_from_chars(v) })
        }
    }

    /// The text that describes the tweak: the target mode as
    /// `WIDTHxHEIGHT @RATEhz`.
    pub fn description(&self) -> (r: String)
        ensures
            r@ == low_res_description(self.target_state),
    {
        let mut v = chars_of("Sets the display to lower resolution and refresh rate to reduce GPU load and improve performance -> ");
        let w = decimal_chars(self.target_state.width);
        push_all(&mut v, &w);
        let x = chars_of("x");
        push_all(&mut v, &x);
        let h = decimal_chars(self.target_state.height);
        push_all(&mut v, &h);
        let at = chars_of(" @");
        push_all(&mut v, &at);
        let rr = decimal_chars(self.target_state.refresh_rate);
        push_all(&mut v, &rr);
        let hz = chars_of("hz.");
        push_all(&mut v, &hz);
        string_from_chars(v)
    }
}

} // verus!
