//! The tweaks that the tool carries out with calls of its own into Windows.
//! Some of them depend on what the system reported when the tool started:
//! the active power scheme, its settings, and the display modes.
pub mod disable_processor_idle_states;
pub mod kill_explorer;
pub mod kill_non_critical_services;
pub mod low_res_mode;
pub mod slow_mode;
pub mod ultimate_performance_plan;

use vstd::prelude::*;
use crate::power::{PowerScheme, PowerSubgroup};
use crate::tweaks::{
    fresh_tweak, option_views, OptionView, Tweak, TweakCategory, TweakId, TweakMethodKind,
    TweakOption, TweakWidget, WinapiMethod,
};
use crate::tweaks::catalog::{catalog_tweak, push_catalog};
use crate::tweaks::table::table_ids;
use disable_processor_idle_states::DisableProcessIdleStates;
use kill_explorer::KillExplorerTweak;
use kill_non_critical_services::KillNonCriticalServicesTweak;
use low_res_mode::{is_lowest_mode, low_res_description, DisplaySettingsType, LowResMode};
use slow_mode::{slow_mode_settings, SlowMode};
use ultimate_performance_plan::UltimatePerformancePlan;

verus! {

/// What the system reported when the tool started: the active power scheme,
/// the subgroups of power settings, the display modes on offer, the display
/// mode in use, and the number of logical processors.
#[derive(Debug)]
pub struct StartupReadings {
    pub active_scheme: PowerScheme,
    pub power_subgroups: Vec<PowerSubgroup>,
    pub display_modes: Vec<DisplaySettingsType>,
    pub current_display: DisplaySettingsType,
    pub logical_processors: u32,
}

/// An on/off tweak that starts off, shown by `widget`.
pub open spec fn switch_tweak(t: Tweak, widget: TweakWidget) -> bool {
    &&& option_views(t.options@) == seq![OptionView::Enabled(false), OptionView::Enabled(true)]
    &&& t.state == TweakOption::Enabled(false)
    &&& t.widget == widget
}

/// The description of the "Enable Ultimate Performance Plan" tweak.
pub const ULTIMATE_PERFORMANCE_PLAN_DESCRIPTION: &'static str = "Activates the Ultimate Performance power plan, which is tailored for demanding workloads by minimizing micro-latencies and boosting hardware performance. It disables power-saving features like core parking, hard disk sleep, and processor throttling, ensuring CPU cores run at maximum frequency. This plan also keeps I/O devices and PCIe links at full power, prioritizing performance over energy efficiency. It's designed to reduce the delays introduced by energy-saving policies, improving responsiveness in tasks that require consistent, high-throughput system resources.";

/// The "Enable Ultimate Performance Plan" tweak, for the scheme active at start.
#[verifier::opaque]
pub open spec fn is_ultimate_performance_plan(t: Tweak, active_scheme: PowerScheme) -> bool {
    &&& fresh_tweak(t, "Enable Ultimate Performance Plan", ULTIMATE_PERFORMANCE_PLAN_DESCRIPTION@, TweakCategory::Power, false)
    &&& switch_tweak(t, TweakWidget::Toggle)
    &&& t.method matches TweakMethodKind::Winapi(WinapiMethod::UltimatePerformancePlan(m))
    &&& m.id == TweakId::UltimatePerformancePlan
    &&& m.default_power_plan == active_scheme
}

/// Builds the "Enable Ultimate Performance Plan" tweak; reverting it goes
/// back to `active_scheme`.
pub fn ultimate_performance_plan(active_scheme: PowerScheme) -> (r: Tweak)
    ensures
        is_ultimate_performance_plan(r, active_scheme),
{
    let r = Tweak::winapi(
        "Enable Ultimate Performance Plan",
        ULTIMATE_PERFORMANCE_PLAN_DESCRIPTION,
        TweakCategory::Power,
        WinapiMethod::UltimatePerformancePlan(UltimatePerformancePlan::new(active_scheme)),
        TweakWidget::Toggle,
        false,
    );
    proof {
        reveal(is_ultimate_performance_plan);
    }
    r
}

/// The description of the "Slow Mode" tweak.
pub const SLOW_MODE_DESCRIPTION: &'static str = "Places the system in a low-power state by:\n1. Switching to the Power Saver scheme\n2. Limiting max cores to 2\n3. Limiting CPU frequency\n4. Delaying CPU performance state transitions\n";

/// The "Slow Mode" tweak, for the scheme active at start and its settings.
#[verifier::opaque]
pub open spec fn is_slow_mode(t: Tweak, active_scheme: PowerScheme, power_subgroups: Seq<PowerSubgroup>) -> bool {
    &&& fresh_tweak(t, "Slow Mode", SLOW_MODE_DESCRIPTION@, TweakCategory::Power, false)
    &&& switch_tweak(t, TweakWidget::Toggle)
    &&& t.method matches TweakMethodKind::Winapi(WinapiMethod::SlowMode(m))
    &&& m.id == TweakId::SlowMode
    &&& m.previous_power_scheme == active_scheme
    &&& m.settings@ == slow_mode_settings(power_subgroups, 5)
}

/// Builds the "Slow Mode" tweak from the scheme active at start and its
/// subgroups of power settings.
pub fn slow_mode(active_scheme: PowerScheme, power_subgroups: Vec<PowerSubgroup>) -> (r: Tweak)
    ensures
        is_slow_mode(r, active_scheme, power_subgroups@),
{
    let r = Tweak::winapi(
        "Slow Mode",
        SLOW_MODE_DESCRIPTION,
        TweakCategory::Power,
        WinapiMethod::SlowMode(SlowMode::new(active_scheme, power_subgroups)),
        TweakWidget::Toggle,
        false,
    );
    proof {
        reveal(is_slow_mode);
    }
    r
}

/// The "Low Resolution Mode" tweak, for the display modes on offer and the
/// mode in use: its target is the lowest mode, and its description names it.
#[verifier::opaque]
pub open spec fn is_low_res_mode(t: Tweak, modes: Seq<DisplaySettingsType>, current: DisplaySettingsType) -> bool {
    &&& t.method matches TweakMethodKind::Winapi(WinapiMethod::LowResMode(m))
    &&& fresh_tweak(t, "Low Resolution Mode", low_res_description(m.target_state), TweakCategory::Graphics, false)
    &&& switch_tweak(t, TweakWidget::Toggle)
    &&& m.id == TweakId::LowResMode
    &&& m.default == current
    &&& exists|k: int| is_lowest_mode(modes, k) && m.target_state == modes[k]
}

/// Builds the "Low Resolution Mode" tweak from the display modes on offer
/// and the mode in use.
pub fn low_res_mode(modes: &Vec<DisplaySettingsType>, current: DisplaySettingsType) -> (r: Tweak)
    requires
        modes.len() > 0,
    ensures
        is_low_res_mode(r, modes@, current),
{
    let method = LowResMode::from_display_settings(modes, current);
    let description = method.description();
    let r = Tweak::winapi(
        "Low Resolution Mode",
        description.as_str(),
        TweakCategory::Graphics,
        WinapiMethod::LowResMode(method),
        TweakWidget::Toggle,
        false,
    );
    proof {
        reveal(is_low_res_mode);
    }
    r
}

/// The description of the "Disable Process Idle States" tweak.
pub const DISABLE_PROCESS_IDLE_STATES_DESCRIPTION: &'static str = "Disables processor idle states (C-states) to prevent the CPU from entering low-power states during idle periods. This tweak can improve system responsiveness but may increase power consumption and heat output.";

/// The "Disable Process Idle States" tweak.
#[verifier::opaque]
pub open spec fn is_disable_process_idle_states(t: Tweak) -> bool {
    &&& fresh_tweak(t, "Disable Process Idle States", DISABLE_PROCESS_IDLE_STATES_DESCRIPTION@, TweakCategory::Power, false)
    &&& switch_tweak(t, TweakWidget::Toggle)
    &&& t.method == TweakMethodKind::Winapi(WinapiMethod::DisableProcessIdleStates(DisableProcessIdleStates { id: TweakId::DisableProcessIdleStates }))
}

/// Builds the "Disable Process Idle States" tweak.
pub fn disable_process_idle_states() -> (r: Tweak)
    ensures
        is_disable_process_idle_states(r),
{
    let r = Tweak::winapi(
        "Disable Process Idle States",
        DISABLE_PROCESS_IDLE_STATES_DESCRIPTION,
        TweakCategory::Power,
        WinapiMethod::DisableProcessIdleStates(DisableProcessIdleStates::new()),
        TweakWidget::Toggle,
        false,
    );
    proof {
        reveal(is_disable_process_idle_states);
    }
    r
}

/// The description of the "Kill All Non-Critical Services" tweak.
pub const KILL_ALL_NON_CRITICAL_SERVICES_DESCRIPTION: &'static str = "Stops all non-critical services to free up system resources and improve performance. This tweak may cause system instability or data loss.";

/// The "Kill All Non-Critical Services" tweak, shown as a button.
#[verifier::opaque]
pub open spec fn is_kill_all_non_critical_services(t: Tweak) -> bool {
    &&& fresh_tweak(t, "Kill All Non-Critical Services", KILL_ALL_NON_CRITICAL_SERVICES_DESCRIPTION@, TweakCategory::Services, false)
    &&& switch_tweak(t, TweakWidget::Button)
    &&& t.method == TweakMethodKind::Winapi(WinapiMethod::KillNonCriticalServices(KillNonCriticalServicesTweak { id: TweakId::KillAllNonCriticalServices }))
}

/// Builds the "Kill All Non-Critical Services" tweak.
pub fn kill_all_non_critical_services() -> (r: Tweak)
    ensures
        is_kill_all_non_critical_services(r),
{
    let r = Tweak::winapi(
        "Kill All Non-Critical Services",
        KILL_ALL_NON_CRITICAL_SERVICES_DESCRIPTION,
        TweakCategory::Services,
        WinapiMethod::KillNonCriticalServices(KillNonCriticalServicesTweak::new()),
        TweakWidget::Button,
        false,
    );
    proof {
        reveal(is_kill_all_non_critical_services);
    }
    r
}

/// The description of the "Kill Explorer" tweak.
pub const KILL_EXPLORER_DESCRIPTION: &'static str = "Terminates the Windows Explorer process and prevents it from automatically restarting. This can free up system resources but will remove the desktop interface. Use with caution.";

/// The "Kill Explorer" tweak.
#[verifier::opaque]
pub open spec fn is_kill_explorer(t: Tweak) -> bool {
    &&& fresh_tweak(t, "Kill Explorer", KILL_EXPLORER_DESCRIPTION@, TweakCategory::Action, false)
    &&& switch_tweak(t, TweakWidget::Toggle)
    &&& t.method == TweakMethodKind::Winapi(WinapiMethod::KillExplorer(KillExplorerTweak { id: TweakId::KillExplorer }))
}

/// Builds the "Kill Explorer" tweak.
pub fn kill_explorer() -> (r: Tweak)
    ensures
        is_kill_explorer(r),
{
    let r = Tweak::winapi(
        "Kill Explorer",
        KILL_EXPLORER_DESCRIPTION,
        TweakCategory::Action,
        WinapiMethod::KillExplorer(KillExplorerTweak::new()),
        TweakWidget::Toggle,
        false,
    );
    proof {
        reveal(is_kill_explorer);
    }
    r
}

/// The identifiers of the Windows API tweaks, in the order the tool lists them.
pub open spec fn winapi_tweak_ids() -> Seq<TweakId> {
    seq![TweakId::UltimatePerformancePlan, TweakId::SlowMode, TweakId::LowResMode, TweakId::DisableProcessIdleStates, TweakId::KillAllNonCriticalServices, TweakId::KillExplorer]
}

/// Every Windows API tweak, with its identifier, in the order the tool
/// lists them, as the readings taken at start make them.
pub fn all_winapi_tweaks(readings: StartupReadings) -> (r: Vec<(TweakId, Tweak)>)
    requires
        readings.display_modes.len() > 0,
    ensures
        table_ids(r@) == winapi_tweak_ids(),
        forall|i: int| 0 <= i < r.len() ==> catalog_tweak(#[trigger] r@[i].0, r@[i].1, readings),
{
    let ghost rd = readings;
    let mut r: Vec<(TweakId, Tweak)> = Vec::new();
    let active_scheme = readings.active_scheme.duplicate();
    push_catalog(&mut r, TweakId::UltimatePerformancePlan, ultimate_performance_plan(active_scheme), Ghost(rd));
    push_catalog(&mut r, TweakId::SlowMode, slow_mode(readings.active_scheme, readings.power_subgroups), Ghost(rd));
    push_catalog(&mut r, TweakId::LowResMode, low_res_mode(&readings.display_modes, readings.current_display), Ghost(rd));
    push_catalog(&mut r, TweakId::DisableProcessIdleStates, disable_process_idle_states(), Ghost(rd));
    push_catalog(&mut r, TweakId::KillAllNonCriticalServices, kill_all_non_critical_services(), Ghost(rd));
    push_catalog(&mut r, TweakId::KillExplorer, kill_explorer(), Ghost(rd));
    assert(table_ids(r@) =~= seq![TweakId::UltimatePerformancePlan, TweakId::SlowMode, TweakId::LowResMode, TweakId::DisableProcessIdleStates, TweakId::KillAllNonCriticalServices, TweakId::KillExplorer]);
    r
}

} // verus!
