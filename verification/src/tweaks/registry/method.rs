//! Registry tweaks: each option of a tweak is a list of registry values to
//! write (or delete). This module decides, from values read out of the
//! registry, which option is in force, and says what to write to apply,
//! revert or roll back a tweak.
use vstd::prelude::*;
use indexmap::IndexMap;
use crate::errors::TweakError;
use crate::indexed::{
    key_position, lemma_key_position, registry_option_entries, registry_options_get,
    registry_options_get_index, registry_options_len,
};
use crate::tweaks::{OptionView, TweakId, TweakOption};
use vstd::string::StringExecFns;

verus! {

/// A registry value as the tweaks know it. `Deleted` stands for the absence
/// of the value: writing it deletes the value.
#[derive(Debug, Clone)]
pub enum RegistryKeyValue {
    Dword(u32),
    Binary(Vec<u8>),
    Deleted,
}

/// The mathematical value of a `RegistryKeyValue`.
pub enum RegistryValueView {
    Dword(u32),
    Binary(Seq<u8>),
    Deleted,
}

impl View for RegistryKeyValue {
    type V = RegistryValueView;

    open spec fn view(&self) -> RegistryValueView {
        match self {
            RegistryKeyValue::Dword(d) => RegistryValueView::Dword(*d),
            RegistryKeyValue::Binary(b) => RegistryValueView::Binary(b@),
            RegistryKeyValue::Deleted => RegistryValueView::Deleted,
        }
    }
}

fn bytes_equal(a: &Vec<u8>, b: &Vec<u8>) -> (r: bool)
    ensures
        r == (a@ == b@),
{
    if a.len() != b.len() {
        return false;
    }
    let mut i: usize = 0;
    while i < a.len()
        invariant
            a.len() == b.len(),
            i <= a.len(),
            forall|j: int| 0 <= j < i ==> a@[j] == b@[j],
        decreases a.len() - i,
    {
        if a[i] != b[i] {
            return false;
        }
        i = i + 1;
    }
    assert(a@ =~= b@);
    true
}

impl RegistryKeyValue {
    /// Whether two registry values are the same value.
    pub fn same_value(&self, other: &RegistryKeyValue) -> (r: bool)
        ensures
            r == (self@ == other@),
    {
        match (self, other) {
            (RegistryKeyValue::Dword(a), RegistryKeyValue::Dword(b)) => *a == *b,
            (RegistryKeyValue::Binary(a), RegistryKeyValue::Binary(b)) => bytes_equal(a, b),
            (RegistryKeyValue::Deleted, RegistryKeyValue::Deleted) => true,
            _ => false,
        }
    }

    /// Whether this value stands for deleting the registry value.
    pub fn is_deleted(&self) -> (r: bool)
        ensures
            r == (self@ == RegistryValueView::Deleted),
    {
        match self {
            RegistryKeyValue::Deleted => true,
            _ => false,
        }
    }
}

/// One registry value that a tweak option writes: the full key path (such as
/// `HKEY_LOCAL_MACHINE\SOFTWARE\...`), the name of the value, and the value.
#[derive(Debug, Clone)]
pub struct RegistryModification {
    pub path: &'static str,
    pub key: &'static str,
    pub value: RegistryKeyValue,
}

/// The mathematical value of a `RegistryModification`.
pub struct ModificationView {
    pub path: Seq<char>,
    pub key: Seq<char>,
    pub value: RegistryValueView,
}

impl View for RegistryModification {
    type V = ModificationView;

    open spec fn view(&self) -> ModificationView {
        ModificationView { path: self.path@, key: self.key@, value: self.value@ }
    }
}

/// Writes the 32-bit value `v` to the value `key` under `path`.
pub open spec fn set_dword(path: &str, key: &str, v: u32) -> ModificationView {
    ModificationView { path: path@, key: key@, value: RegistryValueView::Dword(v) }
}

/// Writes the bytes `b` to the value `key` under `path`.
pub open spec fn set_binary(path: &str, key: &str, b: Seq<u8>) -> ModificationView {
    ModificationView { path: path@, key: key@, value: RegistryValueView::Binary(b) }
}

/// Deletes the value `key` under `path`.
pub open spec fn delete_value(path: &str, key: &str) -> ModificationView {
    ModificationView { path: path@, key: key@, value: RegistryValueView::Deleted }
}

/// An option table as values: each option with the modifications it writes.
pub open spec fn table_view(entries: Seq<(TweakOption, Vec<RegistryModification>)>) -> Seq<(OptionView, Seq<ModificationView>)> {
    entries.map_values(|e: (TweakOption, Vec<RegistryModification>)| (e.0@, e.1@.map_values(|m: RegistryModification| m@)))
}

/// A tweak made of registry modifications, one list per option.
#[derive(Debug)]
pub struct RegistryTweak {
    pub id: TweakId,
    pub options: IndexMap<TweakOption, Vec<RegistryModification>>,
}

/// The result of reading one registry value: `Ok(Some(v))` when it is set to
/// `v`, `Ok(None)` when it is absent, or the message of a failed read.
pub type RegistryRead = Result<Option<RegistryKeyValue>, String>;

/// Whether a modification is in force, given what was read at its place.
pub open spec fn modification_holds(m: RegistryModification, current: Option<RegistryKeyValue>) -> bool {
    match m.value {
        RegistryKeyValue::Deleted => current is None,
        _ => match current {
            Some(c) => c@ == m.value@,
            None => false,
        },
    }
}

/// The outcome of checking a list of modifications against the values read
/// for them, in order: all in force, one not in force, or a read failed
/// before a difference was seen.
pub enum CheckOutcome {
    Holds,
    Differs,
    Failed(Seq<char>),
}

/// Checks the modifications in order against the reads and stops at the
/// first read that failed or the first modification not in force.
pub open spec fn check_reads(mods: Seq<RegistryModification>, reads: Seq<RegistryRead>) -> CheckOutcome
    decreases mods.len(),
{
    if mods.len() == 0 {
        CheckOutcome::Holds
    } else {
        match reads[0] {
            Err(e) => CheckOutcome::Failed(e@),
            Ok(cur) => if modification_holds(mods[0], cur) {
                check_reads(mods.drop_first(), reads.drop_first())
            } else {
                CheckOutcome::Differs
            },
        }
    }
}

/// The first option whose modifications are all in force, or the failure
/// that stops the search, or `NoneHolds` when no option is in force.
pub enum StateSearch {
    Found(int),
    Failed(Seq<char>),
    NoneHolds,
}

pub open spec fn search_options(entries: Seq<(TweakOption, Vec<RegistryModification>)>, observed: Seq<Vec<RegistryRead>>, i: int) -> StateSearch
    decreases entries.len() - i,
{
    if i < 0 || i >= entries.len() {
        StateSearch::NoneHolds
    } else {
        match check_reads(entries[i].1@, observed[i]@) {
            CheckOutcome::Holds => StateSearch::Found(i),
            CheckOutcome::Failed(m) => StateSearch::Failed(m),
            CheckOutcome::Differs => search_options(entries, observed, i + 1),
        }
    }
}

/// The reads fit the shape of the modifications of every option.
pub open spec fn observations_fit(entries: Seq<(TweakOption, Vec<RegistryModification>)>, observed: Seq<Vec<RegistryRead>>) -> bool {
    &&& observed.len() == entries.len()
    &&& forall|i: int| 0 <= i < entries.len() ==> #[trigger] observed[i].len() == entries[i].1.len()
}

proof fn lemma_check_reads_step(mods: Seq<RegistryModification>, reads: Seq<RegistryRead>, i: int)
    requires
        0 <= i < mods.len(),
        mods.len() == reads.len(),
    ensures
        check_reads(mods.skip(i), reads.skip(i)) == (match reads[i] {
            Err(e) => CheckOutcome::Failed(e@),
            Ok(cur) => if modification_holds(mods[i], cur) {
                check_reads(mods.skip(i + 1), reads.skip(i + 1))
            } else {
                CheckOutcome::Differs
            },
        }),
{
    assert(mods.skip(i).drop_first() =~= mods.skip(i + 1));
    assert(reads.skip(i).drop_first() =~= reads.skip(i + 1));
}

/// Checks the modifications against the reads, in order.
fn check_modifications(mods: &Vec<RegistryModification>, reads: &Vec<RegistryRead>) -> (r: Result<bool, String>)
    requires
        mods.len() == reads.len(),
    ensures
        match check_reads(mods@, reads@) {
            CheckOutcome::Holds => r == Ok::<bool, String>(true),
            CheckOutcome::Differs => r == Ok::<bool, String>(false),
            CheckOutcome::Failed(m) => r matches Err(e) && e@ == m,
        },
{
    let mut i: usize = 0;
    assert(mods@.skip(0) =~= mods@);
    assert(reads@.skip(0) =~= reads@);
    while i < mods.len()
        invariant
            mods.len() == reads.len(),
            i <= mods.len(),
            check_reads(mods@, reads@) == check_reads(mods@.skip(i as int), reads@.skip(i as int)),
        decreases mods.len() - i,
    {
        proof {
            lemma_check_reads_step(mods@, reads@, i as int);
        }
        match &reads[i] {
            Err(e) => {
                return Err(e.clone());
            },
            Ok(current) => {
                let m = &mods[i];
                let holds = match &m.value {
                    RegistryKeyValue::Deleted => current.is_none(),
                    _ => match current {
                        Some(c) => c.same_value(&m.value),
                        None => false,
                    },
                };
                if !holds {
                    return Ok(false);
                }
            },
        }
        i = i + 1;
    }
    assert(mods@.skip(i as int).len() == 0);
    Ok(true)
}

impl RegistryTweak {
    /// What the option table holds, in order.
    pub open spec fn entries(&self) -> Seq<(TweakOption, Vec<RegistryModification>)> {
        registry_option_entries(self.options)
    }

    /// Whether every value that `option` writes currently holds, given the
    /// values read for its modifications, in order. Fails when the tweak has
    /// no such option, or with the message of the first failed read that
    /// comes before any difference.
    pub fn read_current_values(&self, option: &TweakOption, reads: &Vec<RegistryRead>) -> (r: Result<bool, TweakError>)
        requires
            key_position(self.entries(), option@) >= 0 ==> reads.len() == self.entries()[key_position(self.entries(), option@)].1.len(),
        ensures
            ({
                let p = key_position(self.entries(), option@);
                if p < 0 {
                    r == Err::<bool, TweakError>(TweakError::OptionNotFound { id: self.id, option: *option })
                } else {
                    match check_reads(self.entries()[p].1@, reads@) {
                        CheckOutcome::Holds => r == Ok::<bool, TweakError>(true),
                        CheckOutcome::Differs => r == Ok::<bool, TweakError>(false),
                        CheckOutcome::Failed(m) => r matches Err(TweakError::ReadFailed { id, message }) && id == self.id && message@ == m,
                    }
                }
            }),
    {
        match registry_options_get(&self.options, option) {
            None => Err(TweakError::OptionNotFound { id: self.id, option: option.duplicate() }),
            Some(mods) => match check_modifications(mods, reads) {
                Ok(b) => Ok(b),
                Err(message) => Err(TweakError::ReadFailed { id: self.id, message }),
            },
        }
    }

    /// The option currently in force: the first option, in table order, whose
    /// modifications all hold in the reads given for it (`observed[i]` are the
    /// reads of the modifications of the `i`-th option). A failed read met
    /// before a match is reported. When no option holds, the first option of
    /// the table is taken.
    pub fn initial_state(&self, observed: &Vec<Vec<RegistryRead>>) -> (r: Result<TweakOption, TweakError>)
        requires
            observations_fit(self.entries(), observed@),
        ensures
            match search_options(self.entries(), observed@, 0) {
                StateSearch::Found(i) => r == Ok::<TweakOption, TweakError>(self.entries()[i].0),
                StateSearch::Failed(m) => r matches Err(TweakError::ReadFailed { id, message }) && id == self.id && message@ == m,
                StateSearch::NoneHolds => if self.entries().len() > 0 {
                    r == Ok::<TweakOption, TweakError>(self.entries()[0].0)
                } else {
                    r == Err::<TweakOption, TweakError>(TweakError::NoOptions { id: self.id })
                },
            },
    {
        let n = registry_options_len(&self.options);
        let mut i: usize = 0;
        while i < n
            invariant
                n == self.entries().len(),
                i <= n,
                observations_fit(self.entries(), observed@),
                search_options(self.entries(), observed@, 0) == search_options(self.entries(), observed@, i as int),
            decreases n - i,
        {
            match registry_options_get_index(&self.options, i) {
                Some((option, mods)) => {
                    assert(observed@[i as int].len() == self.entries()[i as int].1.len());
                    match check_modifications(mods, &observed[i]) {
                        Err(message) => {
                            return Err(TweakError::ReadFailed { id: self.id, message });
                        },
                        Ok(true) => {
                            return Ok(option.duplicate());
                        },
                        Ok(false) => {},
                    }
                },
                None => {},
            }
            i = i + 1;
        }
        match registry_options_get_index(&self.options, 0) {
            Some((option, _)) => Ok(option.duplicate()),
            None => Err(TweakError::NoOptions { id: self.id }),
        }
    }

    /// The modifications to write to apply `option`, in order.
    pub fn modifications_for(&self, option: &TweakOption) -> (r: Result<&Vec<RegistryModification>, TweakError>)
        ensures
            ({
                let p = key_position(self.entries(), option@);
                if p < 0 {
                    r == Err::<&Vec<RegistryModification>, TweakError>(TweakError::OptionNotFound { id: self.id, option: *option })
                } else {
                    r == Ok::<&Vec<RegistryModification>, TweakError>(&self.entries()[p].1)
                }
            }),
    {
        match registry_options_get(&self.options, option) {
            Some(mods) => Ok(mods),
            None => Err(TweakError::OptionNotFound { id: self.id, option: option.duplicate() }),
        }
    }

    /// The modifications to write to revert the tweak, or to roll back a
    /// failed apply: those of the default option `Enabled(false)`.
    pub fn default_modifications(&self) -> (r: Result<&Vec<RegistryModification>, TweakError>)
        ensures
            ({
                let p = key_position(self.entries(), TweakOption::Enabled(false)@);
                if p < 0 {
                    r == Err::<&Vec<RegistryModification>, TweakError>(TweakError::DefaultNotFound { id: self.id })
                } else {
                    r == Ok::<&Vec<RegistryModification>, TweakError>(&self.entries()[p].1)
                }
            }),
    {
        let default_option = TweakOption::Enabled(false);
        match registry_options_get(&self.options, &default_option) {
            Some(mods) => Ok(mods),
            None => Err(TweakError::DefaultNotFound { id: self.id }),
        }
    }

    /// The error reported when writing an option failed with `apply_error`:
    /// the rollback to the default option then either succeeded (`None`) or
    /// failed with the given message.
    pub fn apply_failure(&self, apply_error: String, rollback_error: Option<String>) -> (r: TweakError)
        ensures
            match rollback_error {
                None => r == TweakError::WriteFailed { id: self.id, message: apply_error },
                Some(rb) => r == TweakError::RollbackFailed { id: self.id, apply_error: apply_error, rollback_error: rb },
            },
    {
        match rollback_error {
            None => TweakError::WriteFailed { id: self.id, message: apply_error },
            Some(rb) => TweakError::RollbackFailed { id: self.id, apply_error, rollback_error: rb },
        }
    }
}

/// Where the writing of an option stands: `Applying` while the option's
/// modifications are written, `written` of them done and the next one under
/// way; `RollingBack` once one of them failed with `error`, while the
/// default option's modifications are written back in the same way.
#[derive(Debug)]
pub enum RegistryApplyState {
    Applying { written: usize },
    RollingBack { written: usize, error: String },
}

/// What to do next: write this modification and report how it went, or stop
/// with this result.
#[derive(Debug)]
pub enum RegistryWriteAction<'a> {
    Write(&'a RegistryModification),
    Finish(Result<(), TweakError>),
}

/// The text of the rollback failure when the tweak has no default option.
pub const NO_DEFAULT_ROLLBACK: &'static str = "No registry modifications found for the default option";

impl RegistryTweak {
    /// The first step of writing `mods` (the modifications of the option
    /// being applied): write the first of them, or finish at once when there
    /// are none.
    pub fn apply_start<'a>(&self, mods: &'a Vec<RegistryModification>) -> (r: (RegistryApplyState, RegistryWriteAction<'a>))
        ensures
            r.0 == (RegistryApplyState::Applying { written: 0 }),
            mods.len() == 0 ==> r.1 == RegistryWriteAction::Finish(Ok::<(), TweakError>(())),
            mods.len() > 0 ==> r.1 == RegistryWriteAction::Write(&mods@[0]),
    {
        if mods.len() == 0 {
            (RegistryApplyState::Applying { written: 0 }, RegistryWriteAction::Finish(Ok(())))
        } else {
            (RegistryApplyState::Applying { written: 0 }, RegistryWriteAction::Write(&mods[0]))
        }
    }

    /// The next step once the write asked for last has given `outcome`.
    /// While applying: after a success the next modification of `mods` is
    /// written, and the apply succeeds after the last one; after a failure
    /// the default option's modifications are written back, and with no
    /// default option the apply fails with a failed rollback. While rolling
    /// back: after a success the next default modification is written, and
    /// after the last one the apply fails with the error that started the
    /// rollback; a failed rollback write ends it with both errors.
    pub fn apply_continue<'a>(&'a self, mods: &'a Vec<RegistryModification>, state: RegistryApplyState, outcome: Result<(), String>) -> (r: (RegistryApplyState, RegistryWriteAction<'a>))
        requires
            state matches RegistryApplyState::Applying { written } ==> written < mods.len(),
            state matches RegistryApplyState::RollingBack { written, .. } ==> {
                let p = key_position(self.entries(), TweakOption::Enabled(false)@);
                p >= 0 && written < self.entries()[p].1.len()
            },
        ensures
            ({
                let p = key_position(self.entries(), TweakOption::Enabled(false)@);
                match state {
                    RegistryApplyState::Applying { written } => match outcome {
                        Ok(()) => if written + 1 < mods.len() {
                            r.0 == (RegistryApplyState::Applying { written: (written + 1) as usize })
                                && r.1 == RegistryWriteAction::Write(&mods@[written + 1])
                        } else {
                            r.1 == RegistryWriteAction::Finish(Ok::<(), TweakError>(()))
                        },
                        Err(e) => if p < 0 {
                            (r.1 matches RegistryWriteAction::Finish(Err(TweakError::RollbackFailed { id, apply_error, rollback_error })) && id == self.id && apply_error == e && rollback_error@ == NO_DEFAULT_ROLLBACK@)
                        } else if self.entries()[p].1.len() == 0 {
                            r.1 == RegistryWriteAction::Finish(Err::<(), TweakError>(TweakError::WriteFailed { id: self.id, message: e }))
                        } else {
                            r.0 == (RegistryApplyState::RollingBack { written: 0, error: e })
                                && r.1 == RegistryWriteAction::Write(&self.entries()[p].1@[0])
                        },
                    },
                    RegistryApplyState::RollingBack { written, error } => match outcome {
                        Ok(()) => if written + 1 < self.entries()[p].1.len() {
                            r.0 == (RegistryApplyState::RollingBack { written: (written + 1) as usize, error })
                                && r.1 == RegistryWriteAction::Write(&self.entries()[p].1@[written + 1])
                        } else {
                            r.1 == RegistryWriteAction::Finish(Err::<(), TweakError>(TweakError::WriteFailed { id: self.id, message: error }))
                        },
                        Err(e) => r.1 == RegistryWriteAction::Finish(Err::<(), TweakError>(TweakError::RollbackFailed { id: self.id, apply_error: error, rollback_error: e })),
                    },
                }
            }),
    {
        match state {
            RegistryApplyState::Applying { written } => match outcome {
                Ok(()) => {
                    if written + 1 < mods.len() {
                        (RegistryApplyState::Applying { written: written + 1 }, RegistryWriteAction::Write(&mods[written + 1]))
                    } else {
                        (RegistryApplyState::Applying { written }, RegistryWriteAction::Finish(Ok(())))
                    }
                },
                Err(e) => match self.default_modifications() {
                    Err(_) => {
                        let rb = String::from_str(NO_DEFAULT_ROLLBACK);
                        (RegistryApplyState::Applying { written }, RegistryWriteAction::Finish(Err(self.apply_failure(e, Some(rb)))))
                    },
                    Ok(defaults) => {
                        if defaults.len() == 0 {
                            (RegistryApplyState::Applying { written }, RegistryWriteAction::Finish(Err(self.apply_failure(e, None))))
                        } else {
                            (RegistryApplyState::RollingBack { written: 0, error: e }, RegistryWriteAction::Write(&defaults[0]))
                        }
                    },
                },
            },
            RegistryApplyState::RollingBack { written, error } => {
                let defaults = match self.default_modifications() {
                    Ok(d) => d,
                    Err(_) => {
                        proof {
                            assert(false);
                        }
                        return (RegistryApplyState::RollingBack { written, error: error }, RegistryWriteAction::Finish(Ok(())));
                    },
                };
                match outcome {
                    Ok(()) => {
                        if written + 1 < defaults.len() {
                            (RegistryApplyState::RollingBack { written: written + 1, error }, RegistryWriteAction::Write(&defaults[written + 1]))
                        } else {
                            let rs = RegistryApplyState::Applying { written: 0 };
                            (rs, RegistryWriteAction::Finish(Err(self.apply_failure(error, None))))
                        }
                    },
                    Err(e) => {
                        let rs = RegistryApplyState::Applying { written: 0 };
                        (rs, RegistryWriteAction::Finish(Err(self.apply_failure(error, Some(e)))))
                    },
                }
            },
        }
    }
}

/// The registry as a map from (key path, value name) to value; a location
/// that is absent from the map holds no value.
pub type RegistryModel = Map<(Seq<char>, Seq<char>), RegistryValueView>;

/// The place a modification writes to.
pub open spec fn location(m: RegistryModification) -> (Seq<char>, Seq<char>) {
    (m.path@, m.key@)
}

/// Writing one modification: `Deleted` removes the value, anything else sets it.
pub open spec fn write_modification(model: RegistryModel, m: RegistryModification) -> RegistryModel {
    match m.value {
        RegistryKeyValue::Deleted => model.remove(location(m)),
        _ => model.insert(location(m), m.value@),
    }
}

/// Writing modifications one after another, in order.
pub open spec fn write_modifications(model: RegistryModel, mods: Seq<RegistryModification>) -> RegistryModel
    decreases mods.len(),
{
    if mods.len() == 0 {
        model
    } else {
        write_modifications(write_modification(model, mods[0]), mods.drop_first())
    }
}

/// Whether a read of a location gives back what the model holds there.
pub open spec fn read_agrees(model: RegistryModel, m: RegistryModification, current: Option<RegistryKeyValue>) -> bool {
    match current {
        None => !model.contains_key(location(m)),
        Some(c) => model.contains_key(location(m)) && model[location(m)] == c@,
    }
}

/// No two modifications of a list write different values to one place.
pub open spec fn locations_consistent(mods: Seq<RegistryModification>) -> bool {
    forall|i: int, j: int| 0 <= i < mods.len() && 0 <= j < mods.len() && location(mods[i]) == location(mods[j])
        ==> #[trigger] mods[i].value@ == #[trigger] mods[j].value@
}

/// Whether a modification is in force in a model.
pub open spec fn holds_in(model: RegistryModel, m: RegistryModification) -> bool {
    match m.value {
        RegistryKeyValue::Deleted => !model.contains_key(location(m)),
        _ => model.contains_key(location(m)) && model[location(m)] == m.value@,
    }
}

proof fn lemma_writes_keep(model: RegistryModel, mods: Seq<RegistryModification>, m: RegistryModification)
    requires
        holds_in(model, m),
        forall|j: int| 0 <= j < mods.len() && location(mods[j]) == location(m) ==> mods[j].value@ == m.value@,
    ensures
        holds_in(write_modifications(model, mods), m),
    decreases mods.len(),
{
    if mods.len() > 0 {
        let next = write_modification(model, mods[0]);
        if location(mods[0]) == location(m) {
            assert(mods[0].value@ == m.value@);
        }
        assert(holds_in(next, m));
        assert forall|j: int| 0 <= j < mods.drop_first().len() && location(mods.drop_first()[j]) == location(m)
            implies mods.drop_first()[j].value@ == m.value@ by {
            assert(mods.drop_first()[j] == mods[j + 1]);
        }
        lemma_writes_keep(next, mods.drop_first(), m);
    }
}

/// After writing consistent modifications, each of them is in force.
pub proof fn lemma_written_hold(model: RegistryModel, mods: Seq<RegistryModification>)
    requires
        locations_consistent(mods),
    ensures
        forall|i: int| 0 <= i < mods.len() ==> holds_in(write_modifications(model, mods), #[trigger] mods[i]),
    decreases mods.len(),
{
    if mods.len() > 0 {
        let next = write_modification(model, mods[0]);
        let rest = mods.drop_first();
        assert(locations_consistent(rest)) by {
            assert forall|i: int, j: int| 0 <= i < rest.len() && 0 <= j < rest.len() && location(rest[i]) == location(rest[j])
                implies #[trigger] rest[i].value@ == #[trigger] rest[j].value@ by {
                assert(rest[i] == mods[i + 1]);
                assert(rest[j] == mods[j + 1]);
            }
        }
        lemma_written_hold(next, rest);
        assert(holds_in(next, mods[0]));
        assert forall|j: int| 0 <= j < rest.len() && location(rest[j]) == location(mods[0])
            implies rest[j].value@ == mods[0].value@ by {
            assert(rest[j] == mods[j + 1]);
        }
        lemma_writes_keep(next, rest, mods[0]);
        assert forall|i: int| 0 <= i < mods.len() implies holds_in(write_modifications(model, mods), #[trigger] mods[i]) by {
            if i > 0 {
                assert(mods[i] == rest[i - 1]);
            }
        }
    }
}

proof fn lemma_agreeing_reads_hold(model: RegistryModel, mods: Seq<RegistryModification>, reads: Seq<RegistryRead>)
    requires
        reads.len() == mods.len(),
        forall|i: int| 0 <= i < mods.len() ==> holds_in(model, #[trigger] mods[i]),
        forall|i: int| 0 <= i < reads.len() ==> (#[trigger] reads[i] matches Ok(c) && read_agrees(model, mods[i], c)),
    ensures
        check_reads(mods, reads) == CheckOutcome::Holds,
    decreases mods.len(),
{
    if mods.len() > 0 {
        assert(reads[0] matches Ok(c) && read_agrees(model, mods[0], c));
        assert(holds_in(model, mods[0]));
        assert forall|i: int| 0 <= i < mods.drop_first().len() implies holds_in(model, #[trigger] mods.drop_first()[i]) by {
            assert(mods.drop_first()[i] == mods[i + 1]);
        }
        assert forall|i: int| 0 <= i < reads.drop_first().len() implies (#[trigger] reads.drop_first()[i] matches Ok(c) && read_agrees(model, mods.drop_first()[i], c)) by {
            assert(reads.drop_first()[i] == reads[i + 1]);
            assert(mods.drop_first()[i] == mods[i + 1]);
        }
        lemma_agreeing_reads_hold(model, mods.drop_first(), reads.drop_first());
    }
}

/// Read after write: once the modifications of an option have been written
/// to the registry, reading their places back finds every one of them in
/// force, so `read_current_values` for that option reports `true`; this holds
/// whenever the option does not write two different values to one place.
pub proof fn lemma_read_after_write(model: RegistryModel, mods: Seq<RegistryModification>, reads: Seq<RegistryRead>)
    requires
        locations_consistent(mods),
        reads.len() == mods.len(),
        forall|i: int| 0 <= i < reads.len() ==> (#[trigger] reads[i] matches Ok(c) && read_agrees(write_modifications(model, mods), mods[i], c)),
    ensures
        check_reads(mods, reads) == CheckOutcome::Holds,
{
    lemma_written_hold(model, mods);
    lemma_agreeing_reads_hold(write_modifications(model, mods), mods, reads);
}

/// A list of checks that holds in full never reports a difference or a
/// failure: `initial_state` picks the first option whose reads all hold.
pub proof fn lemma_search_finds_first(entries: Seq<(TweakOption, Vec<RegistryModification>)>, observed: Seq<Vec<RegistryRead>>, k: int)
    requires
        0 <= k < entries.len(),
        check_reads(entries[k].1@, observed[k]@) == CheckOutcome::Holds,
        forall|j: int| 0 <= j < k ==> check_reads(entries[j].1@, observed[j]@) == CheckOutcome::Differs,
    ensures
        search_options(entries, observed, 0) == StateSearch::Found(k),
    decreases k,
{
    lemma_search_from(entries, observed, 0, k);
}

/// Read-back after apply: once option `k` of a tweak has been written to
/// the registry (`model` being the registry before), if the reads of option
/// `k`'s places all succeed and agree with the registry after the write, and
/// every option before `k` is found not in force, then the search finds
/// option `k`, so `initial_state` on these reads returns `Ok` of option `k`.
/// This holds whenever option `k` does not write two different values to one
/// place.
pub proof fn lemma_state_read_back_after_apply(t: RegistryTweak, model: RegistryModel, observed: Seq<Vec<RegistryRead>>, k: int)
    requires
        0 <= k < t.entries().len(),
        k < observed.len(),
        locations_consistent(t.entries()[k].1@),
        observed[k]@.len() == t.entries()[k].1@.len(),
        forall|i: int| 0 <= i < observed[k]@.len() ==> (#[trigger] observed[k]@[i] matches Ok(c)
            && read_agrees(write_modifications(model, t.entries()[k].1@), t.entries()[k].1@[i], c)),
        forall|j: int| 0 <= j < k ==> check_reads(t.entries()[j].1@, observed[j]@) == CheckOutcome::Differs,
    ensures
        search_options(t.entries(), observed, 0) == StateSearch::Found(k),
{
    lemma_read_after_write(model, t.entries()[k].1@, observed[k]@);
    lemma_search_finds_first(t.entries(), observed, k);
}

proof fn lemma_search_from(entries: Seq<(TweakOption, Vec<RegistryModification>)>, observed: Seq<Vec<RegistryRead>>, i: int, k: int)
    requires
        0 <= i <= k < entries.len(),
        check_reads(entries[k].1@, observed[k]@) == CheckOutcome::Holds,
        forall|j: int| i <= j < k ==> check_reads(entries[j].1@, observed[j]@) == CheckOutcome::Differs,
    ensures
        search_options(entries, observed, i) == StateSearch::Found(k),
    decreases k - i,
{
    if i < k {
        lemma_search_from(entries, observed, i + 1, k);
    }
}

} // verus!
