//! Slow mode: the Power Saver scheme with a few processor settings turned
//! down, and a way back to the scheme that was active before.
use vstd::prelude::*;
use crate::errors::TweakError;
use crate::power::{PowerScheme, PowerSetting, PowerSubgroup};
use crate::text::{eq_ignore_ascii_case, eq_ignore_ascii_case_spec};
use crate::tweaks::{TweakId, TweakOption};

verus! {

/// The GUID of the built-in Power Saver scheme.
pub const POWER_SAVER_GUID: u128 = 0xa1841308_3541_4fab_bc81_f71556f20b4a;

/// Desired value of "Processor performance core parking min cores".
pub const SLOW_MODE_MAX_CORES: u32 = 2;
/// Desired value of "Processor performance increase threshold" (least aggressive).
pub const SLOW_MODE_PERF_INC_THRESHOLD: u32 = 100;
/// Desired value of "Processor performance increase time" (minimum).
pub const SLOW_MODE_PERF_INC_TIME: u32 = 1;
/// Desired value of "Energy/performance preference" (maximum power saving).
pub const SLOW_MODE_ENERGY_PERF_PREFERENCE: u32 = 0;
/// Desired value of "Processor maximum frequency", in MHz.
pub const SLOW_MODE_PROC_FREQ_MAX: u32 = 3000;

/// The names of the power settings that slow mode changes, in order.
pub open spec fn required_power_settings() -> Seq<Seq<char>> {
    seq![
        "Processor performance core parking min cores"@,
        "Processor performance increase threshold"@,
        "Processor performance increase time"@,
        "Energy/performance preference"@,
        "Processor maximum frequency"@,
    ]
}

/// The value slow mode gives each of those settings, in the same order.
pub open spec fn required_power_values() -> Seq<u32> {
    seq![
        SLOW_MODE_MAX_CORES,
        SLOW_MODE_PERF_INC_THRESHOLD,
        SLOW_MODE_PERF_INC_TIME,
        SLOW_MODE_ENERGY_PERF_PREFERENCE,
        SLOW_MODE_PROC_FREQ_MAX,
    ]
}

/// A power setting to write: the subgroup, the setting and the value.
#[derive(Debug, Clone, Copy, PartialEq, Eq, Structural)]
pub struct PowerSchemeSetting {
    pub subgroup_guid: u128,
    pub power_setting_guid: u128,
    pub value: u32,
}

/// The slow mode tweak: the settings to write into the Power Saver scheme,
/// and the scheme to return to.
#[derive(Debug)]
pub struct SlowMode {
    pub id: TweakId,
    pub settings: Vec<PowerSchemeSetting>,
    pub previous_power_scheme: PowerScheme,
}

/// The setting at (`i`, `j`) — setting `j` of subgroup `i` — is named `name`,
/// ignoring ASCII case.
pub open spec fn setting_named(subgroups: Seq<PowerSubgroup>, i: int, j: int, name: Seq<char>) -> bool {
    &&& 0 <= i < subgroups.len()
    &&& 0 <= j < subgroups[i].settings.len()
    &&& eq_ignore_ascii_case_spec(subgroups[i].settings@[j].name@, name)
}

/// (`i`, `j`) is the first setting named `name`, subgroups in order and the
/// settings of each in order.
pub open spec fn first_setting_named(subgroups: Seq<PowerSubgroup>, i: int, j: int, name: Seq<char>) -> bool {
    &&& setting_named(subgroups, i, j, name)
    &&& forall|a: int, b: int| setting_named(subgroups, a, b, name) ==> (i < a || (i == a && j <= b))
}

/// The position (subgroup, setting) of the first setting named `name`, if
/// any.
pub open spec fn lookup_position(subgroups: Seq<PowerSubgroup>, name: Seq<char>) -> Option<(int, int)> {
    if exists|i: int, j: int| first_setting_named(subgroups, i, j, name) {
        Some(choose|i: int, j: int| first_setting_named(subgroups, i, j, name))
    } else {
        None
    }
}

/// The setting found for a name, if any.
pub open spec fn lookup_setting(subgroups: Seq<PowerSubgroup>, name: Seq<char>) -> Option<PowerSetting> {
    match lookup_position(subgroups, name) {
        Some((i, j)) => Some(subgroups[i].settings@[j]),
        None => None,
    }
}

/// The settings slow mode writes: for each required name, in order, whose
/// setting is found, the setting's GUID (as both subgroup and setting) and
/// the required value.
pub open spec fn slow_mode_settings(subgroups: Seq<PowerSubgroup>, n: nat) -> Seq<PowerSchemeSetting>
    decreases n,
{
    if n == 0 {
        Seq::empty()
    } else {
        let rest = slow_mode_settings(subgroups, (n - 1) as nat);
        match lookup_position(subgroups, required_power_settings()[n - 1]) {
            Some((i, j)) => rest.push(PowerSchemeSetting {
                subgroup_guid: subgroups[i].settings@[j].guid,
                power_setting_guid: subgroups[i].settings@[j].guid,
                value: required_power_values()[n - 1],
            }),
            None => rest,
        }
    }
}

/// The value slow mode gives the setting with this name: each of the five
/// settings it changes has its own value, and no other setting has one.
#[verifier::opaque]
pub open spec fn slow_mode_value_for(name: Seq<char>) -> Option<u32> {
    if name == "Processor performance core parking min cores"@ {
        Some(SLOW_MODE_MAX_CORES)
    } else if name == "Processor performance increase threshold"@ {
        Some(SLOW_MODE_PERF_INC_THRESHOLD)
    } else if name == "Processor performance increase time"@ {
        Some(SLOW_MODE_PERF_INC_TIME)
    } else if name == "Energy/performance preference"@ {
        Some(SLOW_MODE_ENERGY_PERF_PREFERENCE)
    } else if name == "Processor maximum frequency"@ {
        Some(SLOW_MODE_PROC_FREQ_MAX)
    } else {
        None
    }
}

/// `e` writes the setting found for `name`: its GUID (as subgroup and
/// setting) with the value slow mode gives a setting of that name.
#[verifier::opaque]
pub open spec fn writes_found_setting(subgroups: Seq<PowerSubgroup>, name: Seq<char>, e: PowerSchemeSetting) -> bool {
    &&& lookup_setting(subgroups, name) matches Some(st)
    &&& e.subgroup_guid == st.guid
    &&& e.power_setting_guid == st.guid
    &&& slow_mode_value_for(name) == Some(e.value)
}

/// Each required name has the value its own name calls for.
proof fn lemma_required_values(k: int)
    requires
        0 <= k < 5,
    ensures
        slow_mode_value_for(required_power_settings()[k]) == Some(required_power_values()[k]),
{
    reveal(slow_mode_value_for);
    reveal_strlit("Processor performance core parking min cores");
    reveal_strlit("Processor performance increase threshold");
    reveal_strlit("Processor performance increase time");
    reveal_strlit("Energy/performance preference");
    reveal_strlit("Processor maximum frequency");
    assert("Processor performance core parking min cores"@.len() == 44);
    assert("Processor performance increase threshold"@.len() == 40);
    assert("Processor performance increase time"@.len() == 35);
    assert("Energy/performance preference"@.len() == 29);
    assert("Processor maximum frequency"@.len() == 27);
}

/// One required name more: the settings stay the same when its setting is
/// not found, and otherwise gain one entry that writes it.
proof fn lemma_slow_mode_step(subgroups: Seq<PowerSubgroup>, n: nat)
    requires
        1 <= n <= 5,
    ensures
        lookup_setting(subgroups, required_power_settings()[n - 1]) is None
            ==> slow_mode_settings(subgroups, n) == slow_mode_settings(subgroups, (n - 1) as nat),
        lookup_setting(subgroups, required_power_settings()[n - 1]) is Some ==> {
            let s = slow_mode_settings(subgroups, n);
            let rest = slow_mode_settings(subgroups, (n - 1) as nat);
            &&& s.len() == rest.len() + 1
            &&& forall|i: int| 0 <= i < rest.len() ==> s[i] == rest[i]
            &&& writes_found_setting(subgroups, required_power_settings()[n - 1], s[rest.len() as int])
        },
{
    lemma_required_values(n - 1);
    reveal(writes_found_setting);
}

/// Entry `i` of the settings for the first `n` names writes the setting
/// found for one of those names.
proof fn lemma_entry_written(subgroups: Seq<PowerSubgroup>, n: nat, i: int)
    requires
        n <= 5,
        0 <= i < slow_mode_settings(subgroups, n).len(),
    ensures
        exists|k: int| 0 <= k < n && #[trigger] writes_found_setting(subgroups, required_power_settings()[k], slow_mode_settings(subgroups, n)[i]),
    decreases n,
{
    if n > 0 {
        let m = (n - 1) as nat;
        lemma_slow_mode_step(subgroups, n);
        let rest = slow_mode_settings(subgroups, m);
        if lookup_setting(subgroups, required_power_settings()[m as int]) is None {
            lemma_entry_written(subgroups, m, i);
            let k = choose|k: int| 0 <= k < m && #[trigger] writes_found_setting(subgroups, required_power_settings()[k], rest[i]);
            assert(writes_found_setting(subgroups, required_power_settings()[k], slow_mode_settings(subgroups, n)[i]));
        } else if i < rest.len() {
            lemma_entry_written(subgroups, m, i);
            let k = choose|k: int| 0 <= k < m && #[trigger] writes_found_setting(subgroups, required_power_settings()[k], rest[i]);
            assert(writes_found_setting(subgroups, required_power_settings()[k], slow_mode_settings(subgroups, n)[i]));
        } else {
            assert(writes_found_setting(subgroups, required_power_settings()[m as int], slow_mode_settings(subgroups, n)[i]));
        }
    }
}

/// Name `k` among the first `n`, when its setting is found, is written by
/// some entry of the settings for those names.
proof fn lemma_name_written(subgroups: Seq<PowerSubgroup>, n: nat, k: int)
    requires
        n <= 5,
        0 <= k < n,
        lookup_setting(subgroups, required_power_settings()[k]) is Some,
    ensures
        exists|i: int| 0 <= i < slow_mode_settings(subgroups, n).len()
            && #[trigger] writes_found_setting(subgroups, required_power_settings()[k], slow_mode_settings(subgroups, n)[i]),
    decreases n,
{
    let m = (n - 1) as nat;
    lemma_slow_mode_step(subgroups, n);
    let rest = slow_mode_settings(subgroups, m);
    if k < m {
        lemma_name_written(subgroups, m, k);
        let i = choose|i: int| 0 <= i < rest.len() && #[trigger] writes_found_setting(subgroups, required_power_settings()[k], rest[i]);
        assert(writes_found_setting(subgroups, required_power_settings()[k], slow_mode_settings(subgroups, n)[i]));
    } else {
        assert(writes_found_setting(subgroups, required_power_settings()[k], slow_mode_settings(subgroups, n)[rest.len() as int]));
    }
}

/// `e` writes the setting found for one of the five required names, with
/// the value that name calls for.
pub open spec fn writes_a_required_setting(subgroups: Seq<PowerSubgroup>, e: PowerSchemeSetting) -> bool {
    exists|k: int| 0 <= k < 5 && #[trigger] writes_found_setting(subgroups, required_power_settings()[k], e)
}

/// Some entry of `settings` writes the setting found for `name`.
pub open spec fn name_is_written(subgroups: Seq<PowerSubgroup>, settings: Seq<PowerSchemeSetting>, name: Seq<char>) -> bool {
    exists|i: int| 0 <= i < settings.len() && #[trigger] writes_found_setting(subgroups, name, settings[i])
}

/// The settings slow mode writes are exactly those found for the required
/// names: every one of them writes the setting found for some required name
/// with the value that name calls for, and every required name whose setting
/// is found is written, whichever other names are missing.
pub proof fn lemma_slow_mode_settings(subgroups: Seq<PowerSubgroup>)
    ensures
        forall|i: int| 0 <= i < slow_mode_settings(subgroups, 5).len()
            ==> writes_a_required_setting(subgroups, #[trigger] slow_mode_settings(subgroups, 5)[i]),
        forall|k: int| 0 <= k < 5 && (#[trigger] lookup_setting(subgroups, required_power_settings()[k])) is Some
            ==> name_is_written(subgroups, slow_mode_settings(subgroups, 5), required_power_settings()[k]),
{
    assert forall|i: int| 0 <= i < slow_mode_settings(subgroups, 5).len()
        implies writes_a_required_setting(subgroups, #[trigger] slow_mode_settings(subgroups, 5)[i]) by {
        lemma_entry_written(subgroups, 5, i);
    }
    assert forall|k: int| 0 <= k < 5 && (#[trigger] lookup_setting(subgroups, required_power_settings()[k])) is Some
        implies name_is_written(subgroups, slow_mode_settings(subgroups, 5), required_power_settings()[k]) by {
        lemma_name_written(subgroups, 5, k);
    }
}

proof fn lemma_first_unique(subgroups: Seq<PowerSubgroup>, i: int, j: int, a: int, b: int, name: Seq<char>)
    requires
        first_setting_named(subgroups, i, j, name),
        first_setting_named(subgroups, a, b, name),
    ensures
        i == a && j == b,
{
}

/// The position (subgroup, setting) of the first setting named `name`
/// (ignoring ASCII case), subgroups in order and the settings of each in
/// order.
pub fn find_setting_position(subgroups: &Vec<PowerSubgroup>, name: &str) -> (r: Option<(usize, usize)>)
    ensures
        match r {
            Some((i, j)) => lookup_position(subgroups@, name@) == Some((i as int, j as int)),
            None => lookup_position(subgroups@, name@) is None,
        },
{
    let mut i: usize = 0;
    while i < subgroups.len()
        invariant
            i <= subgroups.len(),
            forall|a: int, b: int| 0 <= a < i ==> !setting_named(subgroups@, a, b, name@),
        decreases subgroups.len() - i,
    {
        let settings = &subgroups[i].settings;
        let mut j: usize = 0;
        while j < settings.len()
            invariant
                i < subgroups.len(),
                *settings == subgroups@[i as int].settings,
                j <= settings.len(),
                forall|a: int, b: int| 0 <= a < i ==> !setting_named(subgroups@, a, b, name@),
                forall|b: int| 0 <= b < j ==> !setting_named(subgroups@, i as int, b, name@),
            decreases settings.len() - j,
        {
            if eq_ignore_ascii_case(settings[j].name.as_str(), name) {
                proof {
                    assert(first_setting_named(subgroups@, i as int, j as int, name@));
                    let (x, y) = choose|x: int, y: int| first_setting_named(subgroups@, x, y, name@);
                    lemma_first_unique(subgroups@, i as int, j as int, x, y, name@);
                }
                return Some((i, j));
            }
            j = j + 1;
        }
        i = i + 1;
    }
    proof {
        if exists|x: int, y: int| first_setting_named(subgroups@, x, y, name@) {
            let (x, y) = choose|x: int, y: int| first_setting_named(subgroups@, x, y, name@);
            assert(!setting_named(subgroups@, x, y, name@));
        }
    }
    None
}

/// The first setting named `name` (ignoring ASCII case), subgroups in order
/// and the settings of each in order.
pub fn find_setting_by_name<'a>(subgroups: &'a Vec<PowerSubgroup>, name: &str) -> (r: Option<&'a PowerSetting>)
    ensures
        match lookup_setting(subgroups@, name@) {
            Some(s) => r == Some(&s),
            None => r is None,
        },
{
    match find_setting_position(subgroups, name) {
        Some((i, j)) => {
            proof {
                let (x, y) = choose|x: int, y: int| first_setting_named(subgroups@, x, y, name@);
                assert(first_setting_named(subgroups@, x, y, name@));
            }
            Some(&subgroups[i].settings[j])
        },
        None => None,
    }
}

impl SlowMode {
    /// Slow mode for the scheme active now, whose power settings are
    /// `power_subgroups`: each required setting that is found gets its value;
    /// a setting that is not found is left out.
    pub fn new(previous_power_scheme: PowerScheme, power_subgroups: Vec<PowerSubgroup>) -> (r: Self)
        ensures
            r.id == TweakId::SlowMode,
            r.previous_power_scheme == previous_power_scheme,
            r.settings@ == slow_mode_settings(power_subgroups@, 5),
            forall|i: int| 0 <= i < r.settings.len() ==> writes_a_required_setting(power_subgroups@, #[trigger] r.settings@[i]),
            forall|k: int| 0 <= k < 5 && (#[trigger] lookup_setting(power_subgroups@, required_power_settings()[k])) is Some
                ==> name_is_written(power_subgroups@, r.settings@, required_power_settings()[k]),
    {
        proof {
            lemma_slow_mode_settings(power_subgroups@);
        }
        let names: [&'static str; 5] = [
            "Processor performance core parking min cores",
            "Processor performance increase threshold",
            "Processor performance increase time",
            "Energy/performance preference",
            "Processor maximum frequency",
        ];
        let values: [u32; 5] = [
            SLOW_MODE_MAX_CORES,
            SLOW_MODE_PERF_INC_THRESHOLD,
            SLOW_MODE_PERF_INC_TIME,
            SLOW_MODE_ENERGY_PERF_PREFERENCE,
            SLOW_MODE_PROC_FREQ_MAX,
        ];
        assert(names@.map_values(|s: &'static str| s@) =~= required_power_settings());
        assert(values@ =~= required_power_values());
        let mut settings: Vec<PowerSchemeSetting> = Vec::new();
        let mut k: usize = 0;
        while k < 5
            invariant
                k <= 5,
                names@.map_values(|s: &'static str| s@) == required_power_settings(),
                values@ == required_power_values(),
                settings@ == slow_mode_settings(power_subgroups@, k as nat),
            decreases 5 - k,
        {
            assert(names@[k as int]@ == required_power_settings()[k as int]);
            match find_setting_position(&power_subgroups, names[k]) {
                Some((i, j)) => {
                    settings.push(PowerSchemeSetting {
                        subgroup_guid: power_subgroups[i].settings[j].guid,
                        power_setting_guid: power_subgroups[i].settings[j].guid,
                        value: values[k],
                    });
                },
                None => {},
            }
            k = k + 1;
        }
        Self { id: TweakId::SlowMode, settings, previous_power_scheme }
    }

    /// The option in force: enabled when the active scheme (or the message
    /// of a failed read) is Power Saver and every slow mode setting holds its
    /// value there; `values[i]` is the value read for setting `i`. A failed
    /// read met before a difference is reported.
    #[verifier::loop_isolation(false)]
    pub fn initial_state(&self, active_scheme: Result<u128, String>, values: &Vec<Result<u32, String>>) -> (r: Result<TweakOption, TweakError>)
        requires
            values.len() == self.settings.len(),
        ensures
            match active_scheme {
                Err(e) => r == Err::<TweakOption, TweakError>(TweakError::ReadFailed { id: self.id, message: e }),
                Ok(g) => if g != POWER_SAVER_GUID {
                    r == Ok::<TweakOption, TweakError>(TweakOption::Enabled(false))
                } else {
                    match slow_mode_check(self.settings@, values@) {
                        SlowModeCheck::Holds => r == Ok::<TweakOption, TweakError>(TweakOption::Enabled(true)),
                        SlowModeCheck::Differs => r == Ok::<TweakOption, TweakError>(TweakOption::Enabled(false)),
                        SlowModeCheck::Failed(m) => r matches Err(TweakError::ReadFailed { id, message }) && id == self.id && message@ == m,
                    }
                },
            },
            active_scheme == Ok::<u128, String>(POWER_SAVER_GUID) ==>
                (r == Ok::<TweakOption, TweakError>(TweakOption::Enabled(true)) <==> values_match(self.settings@, values@)),
            active_scheme == Ok::<u128, String>(POWER_SAVER_GUID)
                && (forall|i: int| 0 <= i < values.len() ==> (#[trigger] values@[i]) is Ok)
                && !values_match(self.settings@, values@)
                ==> r == Ok::<TweakOption, TweakError>(TweakOption::Enabled(false)),
    {
        proof {
            lemma_slow_mode_check_meaning(self.settings@, values@);
        }
        match active_scheme {
            Err(e) => Err(TweakError::ReadFailed { id: self.id, message: e }),
            Ok(g) => {
                if g != POWER_SAVER_GUID {
                    return Ok(TweakOption::Enabled(false));
                }
                let mut i: usize = 0;
                assert(self.settings@.skip(0) =~= self.settings@);
                assert(values@.skip(0) =~= values@);
                while i < self.settings.len()
                    invariant
                        values.len() == self.settings.len(),
                        i <= self.settings.len(),
                        slow_mode_check(self.settings@, values@) == slow_mode_check(self.settings@.skip(i as int), values@.skip(i as int)),
                    decreases self.settings.len() - i,
                {
                    assert(self.settings@.skip(i as int).drop_first() =~= self.settings@.skip(i + 1));
                    assert(values@.skip(i as int).drop_first() =~= values@.skip(i + 1));
                    match &values[i] {
                        Err(e) => {
                            return Err(TweakError::ReadFailed { id: self.id, message: e.clone() });
                        },
                        Ok(v) => {
                            if *v != self.settings[i].value {
                                return Ok(TweakOption::Enabled(false));
                            }
                        },
                    }
                    i = i + 1;
                }
                Ok(TweakOption::Enabled(true))
            },
        }
    }

    /// The scheme into which the settings are written and which is then
    /// activated to apply the tweak.
    pub fn apply_target(&self) -> (r: u128)
        ensures
            r == POWER_SAVER_GUID,
    {
        POWER_SAVER_GUID
    }

    /// The scheme activated to revert the tweak: the one active before.
    pub fn revert_target(&self) -> (r: u128)
        ensures
            r == self.previous_power_scheme.guid,
    {
        self.previous_power_scheme.guid
    }
}

/// The outcome of comparing the settings with the values read for them.
pub enum SlowModeCheck {
    Holds,
    Differs,
    Failed(Seq<char>),
}

/// Compares the settings in order and stops at the first failed read or the
/// first value that differs.
pub open spec fn slow_mode_check(settings: Seq<PowerSchemeSetting>, values: Seq<Result<u32, String>>) -> SlowModeCheck
    decreases settings.len(),
{
    if settings.len() == 0 {
        SlowModeCheck::Holds
    } else {
        match values[0] {
            Err(e) => SlowModeCheck::Failed(e@),
            Ok(v) => if v == settings[0].value {
                slow_mode_check(settings.drop_first(), values.drop_first())
            } else {
                SlowModeCheck::Differs
            },
        }
    }
}

/// Every value read is the value of its setting.
pub open spec fn values_match(settings: Seq<PowerSchemeSetting>, values: Seq<Result<u32, String>>) -> bool {
    forall|i: int| 0 <= i < settings.len() ==> #[trigger] values[i] == Ok::<u32, String>(settings[i].value)
}

/// What comparing the settings with the values read means: they hold
/// exactly when every value read is the setting's value; when every read
/// succeeded and some value is not the setting's value, they differ; and
/// they differ only when some value read is not the setting's value.
pub proof fn lemma_slow_mode_check_meaning(settings: Seq<PowerSchemeSetting>, values: Seq<Result<u32, String>>)
    requires
        values.len() == settings.len(),
    ensures
        (slow_mode_check(settings, values) == SlowModeCheck::Holds) <==> values_match(settings, values),
        slow_mode_check(settings, values) == SlowModeCheck::Differs ==> exists|i: int| 0 <= i < settings.len()
            && (#[trigger] values[i] matches Ok(v) && v != settings[i].value),
        (forall|i: int| 0 <= i < settings.len() ==> (#[trigger] values[i]) is Ok) && !values_match(settings, values)
            ==> slow_mode_check(settings, values) == SlowModeCheck::Differs,
    decreases settings.len(),
{
    if settings.len() > 0 {
        let ss = settings.drop_first();
        let vs = values.drop_first();
        lemma_slow_mode_check_meaning(ss, vs);
        assert forall|i: int| 0 <= i < ss.len() implies ss[i] == settings[i + 1] && vs[i] == values[i + 1] by {}
        if values_match(settings, values) {
            assert(values[0] == Ok::<u32, String>(settings[0].value));
            assert forall|i: int| 0 <= i < ss.len() implies #[trigger] vs[i] == Ok::<u32, String>(ss[i].value) by {
                assert(values[i + 1] == Ok::<u32, String>(settings[i + 1].value));
            }
        }
        if slow_mode_check(settings, values) == SlowModeCheck::Holds {
            assert forall|i: int| 0 <= i < settings.len() implies #[trigger] values[i] == Ok::<u32, String>(settings[i].value) by {
                if i > 0 {
                    assert(vs[i - 1] == Ok::<u32, String>(ss[i - 1].value));
                }
            }
        }
        if slow_mode_check(settings, values) == SlowModeCheck::Differs {
            if values[0] matches Ok(v) && v != settings[0].value {
            } else {
                let i = choose|i: int| 0 <= i < ss.len() && (#[trigger] vs[i] matches Ok(v) && v != ss[i].value);
                assert(values[i + 1] == vs[i]);
            }
        }
        if (forall|i: int| 0 <= i < settings.len() ==> (#[trigger] values[i]) is Ok) && !values_match(settings, values) {
            assert(values[0] is Ok);
            assert forall|i: int| 0 <= i < ss.len() implies (#[trigger] vs[i]) is Ok by {
                assert(values[i + 1] is Ok);
            }
        }
    }
}

} // verus!
