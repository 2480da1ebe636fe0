//! Switching to the Ultimate Performance power scheme, creating it from the
//! built-in template when it is missing.
use vstd::prelude::*;
use crate::errors::TweakError;
use crate::power::PowerScheme;
use crate::text::str_equal;
use crate::tweaks::{TweakId, TweakOption};

verus! {

/// The GUID of the built-in Ultimate Performance scheme.
pub const ULTIMATE_PERFORMANCE_POWER_SCHEME_GUID: u128 = 0xe9a42b02_d5df_448d_aa00_03f14749eb61;

/// The name that a copy of the Ultimate Performance scheme carries.
pub const ULTIMATE_PERFORMANCE_NAME: &'static str = "Ultimate Performance";

/// The tweak that activates the Ultimate Performance scheme and restores the
/// scheme that was active when the tool started.
#[derive(Debug)]
pub struct UltimatePerformancePlan {
    pub id: TweakId,
    pub default_power_plan: PowerScheme,
}

/// The position of the first scheme with the given GUID, or -1.

impl UltimatePerformancePlan {
    /// The tweak, remembering the scheme active now.
    pub fn new(active_scheme: PowerScheme) -> (r: Self)
        ensures
            r.id == TweakId::UltimatePerformancePlan,
            r.default_power_plan == active_scheme,
    {
        Self { id: TweakId::UltimatePerformancePlan, default_power_plan: active_scheme }
    }

    /// In force when the scheme active at start was the Ultimate Performance
    /// scheme itself.
    pub fn initial_state(&self) -> (r: TweakOption)
        ensures
            r == TweakOption::Enabled(self.default_power_plan.guid == ULTIMATE_PERFORMANCE_POWER_SCHEME_GUID),
    {
        TweakOption::Enabled(self.default_power_plan.guid == ULTIMATE_PERFORMANCE_POWER_SCHEME_GUID)
    }

    /// The first scheme with the Ultimate Performance GUID among those
    /// listed, whose GUID is then activated.
    pub fn find_existing(schemes: &Vec<PowerScheme>) -> (r: Option<u128>)
        ensures
            (r is None) <==> (forall|i: int| 0 <= i < schemes.len() ==> #[trigger] schemes@[i].guid != ULTIMATE_PERFORMANCE_POWER_SCHEME_GUID),
            r matches Some(g) ==> g == ULTIMATE_PERFORMANCE_POWER_SCHEME_GUID,
    {
        let mut i: usize = 0;
        while i < schemes.len()
            invariant
                i <= schemes.len(),
                forall|j: int| 0 <= j < i ==> #[trigger] schemes@[j].guid != ULTIMATE_PERFORMANCE_POWER_SCHEME_GUID,
            decreases schemes.len() - i,
        {
            if schemes[i].guid == ULTIMATE_PERFORMANCE_POWER_SCHEME_GUID {
                return Some(schemes[i].guid);
            }
            i = i + 1;
        }
        None
    }

    /// After the template has been copied: the GUID of the first scheme named
    /// "Ultimate Performance", or an error when there is none.
    pub fn find_created(&self, schemes: &Vec<PowerScheme>) -> (r: Result<u128, TweakError>)
        ensures
            (r is Err) <==> (forall|i: int| 0 <= i < schemes.len() ==> #[trigger] schemes@[i].name@ != ULTIMATE_PERFORMANCE_NAME@),
            r matches Ok(g) ==> (exists|i: int| 0 <= i < schemes.len() && #[trigger] schemes@[i].name@ == ULTIMATE_PERFORMANCE_NAME@
                && schemes@[i].guid == g && (forall|j: int| 0 <= j < i ==> #[trigger] schemes@[j].name@ != ULTIMATE_PERFORMANCE_NAME@)),
            r matches Err(e) ==> (e == TweakError::NotFound { id: self.id }),
    {
        let mut i: usize = 0;
        while i < schemes.len()
            invariant
                i <= schemes.len(),
                forall|j: int| 0 <= j < i ==> #[trigger] schemes@[j].name@ != ULTIMATE_PERFORMANCE_NAME@,
            decreases schemes.len() - i,
        {
            if str_equal(schemes[i].name.as_str(), ULTIMATE_PERFORMANCE_NAME) {
                return Ok(schemes[i].guid);
            }
            i = i + 1;
        }
        Err(TweakError::NotFound { id: self.id })
    }

    /// The GUID activated to revert the tweak: the scheme active at start.
    pub fn revert_target(&self) -> (r: u128)
        ensures
            r == self.default_power_plan.guid,
    {
        self.default_power_plan.guid
    }
}

} // verus!
