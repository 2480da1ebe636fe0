use oc_tool::errors::TweakError;
use oc_tool::tweaks::winapi::low_res_mode::{DisplaySettingsType, LowResMode, DISP_CHANGE_SUCCESSFUL};
use oc_tool::tweaks::{TweakId, TweakOption};

fn modes() -> Vec<DisplaySettingsType> {
    vec![
        DisplaySettingsType { width: 3840, height: 2160, refresh_rate: 60 },
        DisplaySettingsType { width: 1024, height: 768, refresh_rate: 60 },
        DisplaySettingsType { width: 3840, height: 2160, refresh_rate: 30 },
        DisplaySettingsType { width: 1920, height: 1080, refresh_rate: 30 },
    ]
}

fn current() -> DisplaySettingsType {
    DisplaySettingsType { width: 3840, height: 2160, refresh_rate: 60 }
}

#[test]
fn test_tweak_apply() {
    let tweak = LowResMode::from_display_settings(&modes(), current());
    let result = tweak.change_outcome(DISP_CHANGE_SUCCESSFUL);
    println!("{:?}", result);
}

#[test]
fn test_tweak_revert() {
    let tweak = LowResMode::from_display_settings(&modes(), current());
    let result = tweak.change_outcome(DISP_CHANGE_SUCCESSFUL);
    println!("{:?}", result);
}

#[test]
fn picks_lowest_rate_then_narrowest_width() {
    let tweak = LowResMode::from_display_settings(&modes(), current());
    assert_eq!(tweak.id, TweakId::LowResMode);
    assert_eq!(tweak.target_state, DisplaySettingsType { width: 1920, height: 1080, refresh_rate: 30 });
    assert_eq!(tweak.default, current());
    assert_eq!(LowResMode::lowest_mode_index(&modes()), 3);
}

#[test]
fn first_of_equal_lowest_modes_is_chosen() {
    let m = vec![
        DisplaySettingsType { width: 800, height: 600, refresh_rate: 50 },
        DisplaySettingsType { width: 800, height: 500, refresh_rate: 50 },
    ];
    assert_eq!(LowResMode::lowest_mode_index(&m), 0);
}

#[test]
fn enabled_when_last_mode_is_the_target() {
    let tweak = LowResMode::from_display_settings(&modes(), current());
    assert_eq!(tweak.initial_state(&modes()), TweakOption::Enabled(true));
    let mut other = modes();
    other.push(current());
    assert_eq!(tweak.initial_state(&other), TweakOption::Enabled(false));
}

#[test]
fn failed_change_reports_the_code() {
    let tweak = LowResMode::from_display_settings(&modes(), current());
    assert!(tweak.change_outcome(DISP_CHANGE_SUCCESSFUL).is_ok());
    match tweak.change_outcome(-2) {
        Err(TweakError::WriteFailed { id, message }) => {
            assert_eq!(id, TweakId::LowResMode);
            assert_eq!(message, "Failed to change display settings. Error code: -2");
        }
        other => panic!("unexpected {:?}", other),
    }
}

#[test]
fn description_names_the_target() {
    let tweak = LowResMode::from_display_settings(&modes(), current());
    assert_eq!(
        tweak.description(),
        "Sets the display to lower resolution and refresh rate to reduce GPU load and improve performance -> 1920x1080 @30hz."
    );
}
