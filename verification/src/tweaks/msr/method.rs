//! Model-specific-register tweaks: each option of a tweak is a list of
//! register bits to set or clear on every core. This module computes the
//! masks and new register values, decides from register values read on each
//! core which option is in force, and checks that a write took effect.
use vstd::prelude::*;
use indexmap::IndexMap;
use crate::errors::TweakError;
use crate::indexed::{
    key_position, msr_option_entries, msr_options_get, msr_options_get_index, msr_options_len,
};
use crate::tweaks::registry::method::{CheckOutcome, StateSearch};
use crate::tweaks::{OptionView, TweakId, TweakOption};

verus! {

/// One bit of a model-specific register that an option sets or clears: the
/// register index, the bit position, and the desired state of the bit.
#[derive(Debug, Clone, Copy, PartialEq, Eq, Structural, Hash)]
pub struct MsrState {
    pub index: u32,
    pub bit: u32,
    pub state: bool,
}

/// A tweak made of register bits, one list per option.
#[derive(Debug)]
pub struct MSRTweak {
    pub id: TweakId,
    /// Whether the register bits can be read back to find the current option.
    pub readable: bool,
    pub options: IndexMap<TweakOption, Vec<MsrState>>,
}

/// An option table as values: each option with the register bits it sets
/// or clears.
pub open spec fn msr_table_view(entries: Seq<(TweakOption, Vec<MsrState>)>) -> Seq<(OptionView, Seq<MsrState>)> {
    entries.map_values(|e: (TweakOption, Vec<MsrState>)| (e.0@, e.1@))
}

/// The result of reading a register on one core: its value, or the message
/// of a failed read.
pub type MsrRead = Result<u64, String>;

/// Bit `b` of `x` is set.
pub open spec fn bit_of(x: u64, b: u64) -> bool {
    (x >> b) & 1u64 == 1u64
}

/// Every step names a bit of a 64-bit register.
pub open spec fn steps_in_range(steps: Seq<MsrState>) -> bool {
    forall|i: int| 0 <= i < steps.len() ==> #[trigger] steps[i].bit < 64
}

proof fn lemma_or_bit(acc: u64, k: u64, b: u64)
    requires
        k < 64,
        b < 64,
    ensures
        bit_of(acc | (1u64 << k), b) == (bit_of(acc, b) || b == k),
{
    assert(((acc | (1u64 << k)) >> b) & 1u64 == 1u64 <==> (((acc >> b) & 1u64 == 1u64) || b == k)) by (bit_vector)
        requires
            k < 64,
            b < 64,
    ;
}

proof fn lemma_zero_bits(b: u64)
    requires
        b < 64,
    ensures
        !bit_of(0u64, b),
{
    assert((0u64 >> b) & 1u64 != 1u64) by (bit_vector);
}

proof fn lemma_mask_bits(current: u64, set: u64, clear: u64, b: u64)
    requires
        b < 64,
    ensures
        bit_of((current | set) & !clear, b) == (!bit_of(clear, b) && (bit_of(current, b) || bit_of(set, b))),
{
    assert(((((current | set) & !clear) >> b) & 1u64 == 1u64) <==> (!((clear >> b) & 1u64 == 1u64)
        && (((current >> b) & 1u64 == 1u64) || ((set >> b) & 1u64 == 1u64)))) by (bit_vector)
        requires
            b < 64,
    ;
}

/// The mask built by OR-ing, in order, the bits of the steps whose state is
/// `wanted`.
pub open spec fn exact_mask(steps: Seq<MsrState>, wanted: bool) -> u64
    decreases steps.len(),
{
    if steps.len() == 0 {
        0u64
    } else {
        let m = exact_mask(steps.drop_last(), wanted);
        if steps.last().state == wanted {
            m | (1u64 << steps.last().bit)
        } else {
            m
        }
    }
}

/// The value of a register after bit `b` is given the state `state`.
pub open spec fn with_bit(x: u64, b: u32, state: bool) -> u64 {
    if state {
        x | (1u64 << b)
    } else {
        x & !(1u64 << b)
    }
}

fn mask_of(steps: &[MsrState], wanted: bool) -> (r: u64)
    requires
        steps_in_range(steps@),
    ensures
        r == exact_mask(steps@, wanted),
        forall|b: u64| b < 64 ==> (#[trigger] bit_of(r, b) <==> exists|i: int| 0 <= i < steps@.len() && steps@[i].state == wanted && steps@[i].bit == b),
{
    let mut acc: u64 = 0;
    let mut i: usize = 0;
    assert(steps@.take(0) =~= Seq::<MsrState>::empty());
    proof {
        assert forall|b: u64| b < 64 implies !bit_of(acc, b) by {
            lemma_zero_bits(b);
        }
    }
    while i < steps.len()
        invariant
            i <= steps@.len(),
            steps_in_range(steps@),
            acc == exact_mask(steps@.take(i as int), wanted),
            forall|b: u64| b < 64 ==> (#[trigger] bit_of(acc, b) <==> exists|j: int| 0 <= j < i && steps@[j].state == wanted && steps@[j].bit == b),
        decreases steps.len() - i,
    {
        let s = steps[i];
        assert(steps@.take(i + 1).drop_last() =~= steps@.take(i as int));
        assert(steps@[i as int].bit < 64);
        if s.state == wanted {
            let next = acc | (1u64 << s.bit);
            proof {
                assert forall|b: u64| b < 64 implies (#[trigger] bit_of(next, b) <==> exists|j: int| 0 <= j < i + 1 && steps@[j].state == wanted && steps@[j].bit == b) by {
                    lemma_or_bit(acc, s.bit as u64, b);
                    if b == s.bit as u64 {
                        assert(steps@[i as int].state == wanted && steps@[i as int].bit == b);
                    }
                }
            }
            acc = next;
        } else {
            proof {
                assert forall|b: u64| b < 64 implies (#[trigger] bit_of(acc, b) <==> exists|j: int| 0 <= j < i + 1 && steps@[j].state == wanted && steps@[j].bit == b) by {
                    if exists|j: int| 0 <= j < i + 1 && steps@[j].state == wanted && steps@[j].bit == b {
                        let j = choose|j: int| 0 <= j < i + 1 && steps@[j].state == wanted && steps@[j].bit == b;
                        assert(j < i);
                    }
                }
            }
        }
        i = i + 1;
    }
    assert(steps@.take(i as int) =~= steps@);
    acc
}

impl MSRTweak {
    /// What the option table holds, in order.
    pub open spec fn entries(&self) -> Seq<(TweakOption, Vec<MsrState>)> {
        msr_option_entries(self.options)
    }

    /// The mask of all bits that the steps set: bit `b` is set exactly when
    /// some step wants bit `b` set.
    pub fn create_set_mask(steps: &[MsrState]) -> (r: u64)
        requires
            steps_in_range(steps@),
        ensures
            r == exact_mask(steps@, true),
            forall|b: u64| b < 64 ==> (#[trigger] bit_of(r, b) <==> exists|i: int| 0 <= i < steps@.len() && steps@[i].state && steps@[i].bit == b),
    {
        mask_of(steps, true)
    }

    /// The mask of all bits that the steps clear: bit `b` is set exactly when
    /// some step wants bit `b` cleared.
    pub fn create_clear_mask(steps: &[MsrState]) -> (r: u64)
        requires
            steps_in_range(steps@),
        ensures
            r == exact_mask(steps@, false),
            forall|b: u64| b < 64 ==> (#[trigger] bit_of(r, b) <==> exists|i: int| 0 <= i < steps@.len() && !steps@[i].state && steps@[i].bit == b),
    {
        mask_of(steps, false)
    }

    /// Sets the bits of `set_mask` and then clears those of `clear_mask`.
    pub fn apply_masks(current_value: u64, set_mask: u64, clear_mask: u64) -> (r: u64)
        ensures
            r == (current_value | set_mask) & !clear_mask,
            forall|b: u64| b < 64 ==> #[trigger] bit_of(r, b) == (!bit_of(clear_mask, b) && (bit_of(current_value, b) || bit_of(set_mask, b))),
    {
        proof {
            assert forall|b: u64| b < 64 implies #[trigger] bit_of((current_value | set_mask) & !clear_mask, b) == (!bit_of(clear_mask, b) && (bit_of(current_value, b) || bit_of(set_mask, b))) by {
                lemma_mask_bits(current_value, set_mask, clear_mask, b);
            }
        }
        (current_value | set_mask) & !clear_mask
    }

    /// Restores the expected bits: sets those of `set_mask` and clears those
    /// of `clear_mask`.
    pub fn revert_masks(current_value: u64, set_mask: u64, clear_mask: u64) -> (r: u64)
        ensures
            r == (current_value | set_mask) & !clear_mask,
            forall|b: u64| b < 64 ==> #[trigger] bit_of(r, b) == (!bit_of(clear_mask, b) && (bit_of(current_value, b) || bit_of(set_mask, b))),
    {
        Self::apply_masks(current_value, set_mask, clear_mask)
    }

    /// The register value after applying one step to `current_value`: the
    /// step's bit takes the step's state and every other bit is kept.
    pub fn applied_value(current_value: u64, step: &MsrState) -> (r: u64)
        requires
            step.bit < 64,
        ensures
            r == with_bit(current_value, step.bit, step.state),
            bit_of(r, step.bit as u64) == step.state,
            forall|b: u64| b < 64 && b != step.bit ==> #[trigger] bit_of(r, b) == bit_of(current_value, b),
    {
        let steps = [*step];
        assert(steps@[0] == *step);
        let set_mask = Self::create_set_mask(&steps);
        let clear_mask = Self::create_clear_mask(&steps);
        let r = Self::apply_masks(current_value, set_mask, clear_mask);
        proof {
            assert(steps@.len() == 1);
            assert forall|b: u64| b < 64 && b != step.bit implies #[trigger] bit_of(r, b) == bit_of(current_value, b) by {
                assert(!bit_of(set_mask, b));
                assert(!bit_of(clear_mask, b));
            }
            let sb = step.bit as u64;
            assert(steps@.drop_last() =~= Seq::<MsrState>::empty());
            assert(exact_mask(Seq::<MsrState>::empty(), true) == 0u64);
            assert(exact_mask(Seq::<MsrState>::empty(), false) == 0u64);
            assert(steps@.last() == *step);
            let k = step.bit;
            if step.state {
                assert(set_mask == 0u64 | (1u64 << k));
                assert(clear_mask == 0u64);
                assert((current_value | (0u64 | (1u64 << k))) & !0u64 == current_value | (1u64 << k)) by (bit_vector);
            } else {
                assert(set_mask == 0u64);
                assert(clear_mask == 0u64 | (1u64 << k));
                assert((current_value | 0u64) & !(0u64 | (1u64 << k)) == current_value & !(1u64 << k)) by (bit_vector);
            }
            if step.state {
                assert(bit_of(set_mask, sb));
                assert(!bit_of(clear_mask, sb));
            } else {
                assert(bit_of(clear_mask, sb));
            }
        }
        r
    }

    /// The state of bit `step.bit` in a register value matches the step.
    pub fn bit_matches(value: u64, step: &MsrState) -> (r: bool)
        requires
            step.bit < 64,
        ensures
            r == (bit_of(value, step.bit as u64) == step.state),
    {
        let bit_state = ((value >> step.bit) & 1) == 1;
        bit_state == step.state
    }

    /// The steps to apply for `option`, in order.
    pub fn steps_for(&self, option: &TweakOption) -> (r: Result<&Vec<MsrState>, TweakError>)
        ensures
            ({
                let p = key_position(self.entries(), option@);
                if p < 0 {
                    r == Err::<&Vec<MsrState>, TweakError>(TweakError::OptionNotFound { id: self.id, option: *option })
                } else {
                    r == Ok::<&Vec<MsrState>, TweakError>(&self.entries()[p].1)
                }
            }),
    {
        match msr_options_get(&self.options, option) {
            Some(steps) => Ok(steps),
            None => Err(TweakError::OptionNotFound { id: self.id, option: option.duplicate() }),
        }
    }

    /// The steps that restore the default option `Enabled(false)`.
    pub fn default_steps(&self) -> (r: Result<&Vec<MsrState>, TweakError>)
        ensures
            ({
                let p = key_position(self.entries(), TweakOption::Enabled(false)@);
                if p < 0 {
                    r == Err::<&Vec<MsrState>, TweakError>(TweakError::DefaultNotFound { id: self.id })
                } else {
                    r == Ok::<&Vec<MsrState>, TweakError>(&self.entries()[p].1)
                }
            }),
    {
        let default_option = TweakOption::Enabled(false);
        match msr_options_get(&self.options, &default_option) {
            Some(steps) => Ok(steps),
            None => Err(TweakError::DefaultNotFound { id: self.id }),
        }
    }

    /// Checks that the value read back from register `step.index` on `core`
    /// after a write is the value written.
    pub fn verify_write(&self, step: &MsrState, core: u32, expected: u64, found: u64) -> (r: Result<(), TweakError>)
        ensures
            found == expected ==> r == Ok::<(), TweakError>(()),
            found != expected ==> r == Err::<(), TweakError>(TweakError::MsrVerifyFailed { id: self.id, index: step.index, core, expected, found }),
    {
        if found == expected {
            Ok(())
        } else {
            Err(TweakError::MsrVerifyFailed { id: self.id, index: step.index, core, expected, found })
        }
    }
}

/// Checks one step against the register values read on each core, in core
/// order, and stops at the first failed read or the first core on which the
/// bit differs.
pub open spec fn check_cores(step: MsrState, reads: Seq<MsrRead>) -> CheckOutcome
    decreases reads.len(),
{
    if reads.len() == 0 {
        CheckOutcome::Holds
    } else {
        match reads[0] {
            Err(e) => CheckOutcome::Failed(e@),
            Ok(v) => if bit_of(v, step.bit as u64) == step.state {
                check_cores(step, reads.drop_first())
            } else {
                CheckOutcome::Differs
            },
        }
    }
}

/// Checks the steps in order, each on every core.
pub open spec fn check_steps(steps: Seq<MsrState>, reads: Seq<Vec<MsrRead>>) -> CheckOutcome
    decreases steps.len(),
{
    if steps.len() == 0 {
        CheckOutcome::Holds
    } else {
        match check_cores(steps[0], reads[0]@) {
            CheckOutcome::Holds => check_steps(steps.drop_first(), reads.drop_first()),
            other => other,
        }
    }
}

/// Every step's bit is in the step's state on every core: each read for
/// step `j` is a value whose bit `steps[j].bit` is `steps[j].state`.
pub open spec fn bits_hold_on_all_cores(steps: Seq<MsrState>, reads: Seq<Vec<MsrRead>>) -> bool {
    forall|j: int, c: int| 0 <= j < steps.len() && 0 <= c < reads[j]@.len()
        ==> (#[trigger] reads[j]@[c] matches Ok(v) && bit_of(v, steps[j].bit as u64) == steps[j].state)
}

/// What checking one step on every core means: it holds exactly when every
/// read is a value with the step's bit in the step's state, and it differs
/// only when some read is a value with the bit in the other state.
pub proof fn lemma_check_cores_meaning(step: MsrState, reads: Seq<MsrRead>)
    ensures
        (check_cores(step, reads) == CheckOutcome::Holds) <==> (forall|c: int| 0 <= c < reads.len()
            ==> (#[trigger] reads[c] matches Ok(v) && bit_of(v, step.bit as u64) == step.state)),
        check_cores(step, reads) == CheckOutcome::Differs ==> exists|c: int| 0 <= c < reads.len()
            && (#[trigger] reads[c] matches Ok(v) && bit_of(v, step.bit as u64) != step.state),
    decreases reads.len(),
{
    if reads.len() > 0 {
        let rest = reads.drop_first();
        lemma_check_cores_meaning(step, rest);
        assert forall|c: int| 0 <= c < rest.len() implies rest[c] == reads[c + 1] by {}
        if check_cores(step, reads) == CheckOutcome::Differs {
            match reads[0] {
                Ok(v) => {
                    if bit_of(v, step.bit as u64) == step.state {
                        let c = choose|c: int| 0 <= c < rest.len()
                            && (#[trigger] rest[c] matches Ok(v) && bit_of(v, step.bit as u64) != step.state);
                        assert(reads[c + 1] == rest[c]);
                    }
                },
                Err(_) => {},
            }
        }
        if check_cores(step, reads) == CheckOutcome::Holds {
            assert forall|c: int| 0 <= c < reads.len() implies (#[trigger] reads[c] matches Ok(v) && bit_of(v, step.bit as u64) == step.state) by {
                if c > 0 {
                    assert(reads[c] == rest[c - 1]);
                }
            }
        }
        if forall|c: int| 0 <= c < reads.len() ==> (#[trigger] reads[c] matches Ok(v) && bit_of(v, step.bit as u64) == step.state) {
            assert(reads[0] matches Ok(v) && bit_of(v, step.bit as u64) == step.state);
            assert forall|c: int| 0 <= c < rest.len() implies (#[trigger] rest[c] matches Ok(v) && bit_of(v, step.bit as u64) == step.state) by {
                assert(reads[c + 1] == rest[c]);
            }
        }
    }
}

/// What checking an option's steps means: it holds exactly when every step's
/// bit is in the step's state on every core, and it differs only when some
/// step's bit is in the other state on some core, so the option does not
/// hold.
pub proof fn lemma_check_steps_meaning(steps: Seq<MsrState>, reads: Seq<Vec<MsrRead>>)
    requires
        reads.len() == steps.len(),
    ensures
        (check_steps(steps, reads) == CheckOutcome::Holds) <==> bits_hold_on_all_cores(steps, reads),
        check_steps(steps, reads) == CheckOutcome::Differs ==> !bits_hold_on_all_cores(steps, reads),
    decreases steps.len(),
{
    if steps.len() > 0 {
        let rs = reads.drop_first();
        let ss = steps.drop_first();
        lemma_check_steps_meaning(ss, rs);
        lemma_check_cores_meaning(steps[0], reads[0]@);
        if bits_hold_on_all_cores(steps, reads) {
            assert forall|c: int| 0 <= c < reads[0]@.len() implies (#[trigger] reads[0]@[c] matches Ok(v) && bit_of(v, steps[0].bit as u64) == steps[0].state) by {
                assert(reads[0]@[c] matches Ok(v) && bit_of(v, steps[0].bit as u64) == steps[0].state);
            }
            assert forall|j: int, c: int| 0 <= j < ss.len() && 0 <= c < rs[j]@.len() implies (#[trigger] rs[j]@[c] matches Ok(v) && bit_of(v, ss[j].bit as u64) == ss[j].state) by {
                assert(rs[j] == reads[j + 1]);
                assert(ss[j] == steps[j + 1]);
                assert(reads[j + 1]@[c] matches Ok(v) && bit_of(v, steps[j + 1].bit as u64) == steps[j + 1].state);
            }
        }
        if check_steps(steps, reads) == CheckOutcome::Holds {
            assert forall|j: int, c: int| 0 <= j < steps.len() && 0 <= c < reads[j]@.len() implies (#[trigger] reads[j]@[c] matches Ok(v) && bit_of(v, steps[j].bit as u64) == steps[j].state) by {
                if j > 0 {
                    assert(rs[j - 1] == reads[j]);
                    assert(ss[j - 1] == steps[j]);
                    assert(rs[j - 1]@[c] matches Ok(v) && bit_of(v, ss[j - 1].bit as u64) == ss[j - 1].state);
                } else {
                    assert(reads[0]@[c] matches Ok(v) && bit_of(v, steps[0].bit as u64) == steps[0].state);
                }
            }
        }
        if check_steps(steps, reads) == CheckOutcome::Differs {
            if check_cores(steps[0], reads[0]@) == CheckOutcome::Differs {
                let c = choose|c: int| 0 <= c < reads[0]@.len()
                    && (#[trigger] reads[0]@[c] matches Ok(v) && bit_of(v, steps[0].bit as u64) != steps[0].state);
                assert(!(reads[0]@[c] matches Ok(v) && bit_of(v, steps[0].bit as u64) == steps[0].state));
            } else {
                assert(!bits_hold_on_all_cores(ss, rs));
                let (j, c) = choose|j: int, c: int| 0 <= j < ss.len() && 0 <= c < rs[j]@.len()
                    && !(#[trigger] rs[j]@[c] matches Ok(v) && bit_of(v, ss[j].bit as u64) == ss[j].state);
                assert(rs[j] == reads[j + 1]);
                assert(ss[j] == steps[j + 1]);
                assert(!(reads[j + 1]@[c] matches Ok(v) && bit_of(v, steps[j + 1].bit as u64) == steps[j + 1].state));
            }
        }
    }
}

/// The first option whose steps all hold on every core.
pub open spec fn search_msr_options(entries: Seq<(TweakOption, Vec<MsrState>)>, observed: Seq<Vec<Vec<MsrRead>>>, i: int) -> StateSearch
    decreases entries.len() - i,
{
    if i < 0 || i >= entries.len() {
        StateSearch::NoneHolds
    } else {
        match check_steps(entries[i].1@, observed[i]@) {
            CheckOutcome::Holds => StateSearch::Found(i),
            CheckOutcome::Failed(m) => StateSearch::Failed(m),
            CheckOutcome::Differs => search_msr_options(entries, observed, i + 1),
        }
    }
}

/// The search from option `i` finds the first option (from `i` on) whose
/// bits hold on every core, and finds none only when no option from `i` on
/// holds.
pub proof fn lemma_search_msr_meaning(entries: Seq<(TweakOption, Vec<MsrState>)>, observed: Seq<Vec<Vec<MsrRead>>>, i: int)
    requires
        0 <= i,
        observed.len() == entries.len(),
        forall|k: int| 0 <= k < entries.len() ==> #[trigger] observed[k].len() == entries[k].1.len(),
    ensures
        search_msr_options(entries, observed, i) matches StateSearch::Found(f) ==> {
            &&& i <= f < entries.len()
            &&& bits_hold_on_all_cores(entries[f].1@, observed[f]@)
            &&& forall|k: int| i <= k < f ==> !bits_hold_on_all_cores(#[trigger] entries[k].1@, observed[k]@)
        },
        search_msr_options(entries, observed, i) is NoneHolds ==>
            forall|k: int| i <= k < entries.len() ==> !bits_hold_on_all_cores(#[trigger] entries[k].1@, observed[k]@),
    decreases entries.len() - i,
{
    if i < entries.len() {
        assert(observed[i].len() == entries[i].1.len());
        lemma_check_steps_meaning(entries[i].1@, observed[i]@);
        lemma_search_msr_meaning(entries, observed, i + 1);
    }
}

/// The register reads fit the shape of the options: for option `i` and step
/// `j` there is one read per core.
pub open spec fn msr_observations_fit(entries: Seq<(TweakOption, Vec<MsrState>)>, observed: Seq<Vec<Vec<MsrRead>>>, cores: nat) -> bool {
    &&& observed.len() == entries.len()
    &&& forall|i: int| 0 <= i < entries.len() ==> #[trigger] observed[i].len() == entries[i].1.len()
    &&& forall|i: int, j: int| 0 <= i < entries.len() && 0 <= j < entries[i].1.len() ==> (#[trigger] observed[i]@[j]).len() == cores
    &&& forall|i: int| 0 <= i < entries.len() ==> steps_in_range(#[trigger] entries[i].1@)
}

fn check_core_values(step: &MsrState, reads: &Vec<MsrRead>) -> (r: Result<bool, String>)
    requires
        step.bit < 64,
    ensures
        match check_cores(*step, reads@) {
            CheckOutcome::Holds => r == Ok::<bool, String>(true),
            CheckOutcome::Differs => r == Ok::<bool, String>(false),
            CheckOutcome::Failed(m) => r matches Err(e) && e@ == m,
        },
{
    let mut c: usize = 0;
    assert(reads@.skip(0) =~= reads@);
    while c < reads.len()
        invariant
            step.bit < 64,
            c <= reads.len(),
            check_cores(*step, reads@) == check_cores(*step, reads@.skip(c as int)),
        decreases reads.len() - c,
    {
        assert(reads@.skip(c as int).drop_first() =~= reads@.skip(c + 1));
        match &reads[c] {
            Err(e) => {
                return Err(e.clone());
            },
            Ok(v) => {
                if !MSRTweak::bit_matches(*v, step) {
                    return Ok(false);
                }
            },
        }
        c = c + 1;
    }
    Ok(true)
}

fn check_step_values(steps: &Vec<MsrState>, reads: &Vec<Vec<MsrRead>>) -> (r: Result<bool, String>)
    requires
        steps.len() == reads.len(),
        steps_in_range(steps@),
    ensures
        match check_steps(steps@, reads@) {
            CheckOutcome::Holds => r == Ok::<bool, String>(true),
            CheckOutcome::Differs => r == Ok::<bool, String>(false),
            CheckOutcome::Failed(m) => r matches Err(e) && e@ == m,
        },
{
    let mut j: usize = 0;
    assert(steps@.skip(0) =~= steps@);
    assert(reads@.skip(0) =~= reads@);
    while j < steps.len()
        invariant
            steps.len() == reads.len(),
            steps_in_range(steps@),
            j <= steps.len(),
            check_steps(steps@, reads@) == check_steps(steps@.skip(j as int), reads@.skip(j as int)),
        decreases steps.len() - j,
    {
        assert(steps@.skip(j as int).drop_first() =~= steps@.skip(j + 1));
        assert(reads@.skip(j as int).drop_first() =~= reads@.skip(j + 1));
        assert(steps@[j as int].bit < 64);
        match check_core_values(&steps[j], &reads[j]) {
            Err(e) => {
                return Err(e);
            },
            Ok(false) => {
                return Ok(false);
            },
            Ok(true) => {},
        }
        j = j + 1;
    }
    Ok(true)
}

impl MSRTweak {
    /// The option currently in force. A tweak whose bits cannot be read is
    /// taken to be at `Enabled(false)`. Otherwise `observed[i][j][c]` is the
    /// register read for step `j` of option `i` on core `c`; the first option
    /// (in table order) whose bits all hold on every core is the answer, a
    /// failed read met before a match is reported, and `Enabled(false)` is
    /// the answer when no option holds.
    pub fn initial_state(&self, observed: &Vec<Vec<Vec<MsrRead>>>, cores: u32) -> (r: Result<TweakOption, TweakError>)
        requires
            self.readable ==> msr_observations_fit(self.entries(), observed@, cores as nat),
        ensures
            !self.readable ==> r == Ok::<TweakOption, TweakError>(TweakOption::Enabled(false)),
            self.readable ==> match search_msr_options(self.entries(), observed@, 0) {
                StateSearch::Found(i) => r == Ok::<TweakOption, TweakError>(self.entries()[i].0),
                StateSearch::Failed(m) => r matches Err(TweakError::ReadFailed { id, message }) && id == self.id && message@ == m,
                StateSearch::NoneHolds => r == Ok::<TweakOption, TweakError>(TweakOption::Enabled(false)),
            },
            self.readable ==> (r matches Ok(o) ==> {
                ||| exists|i: int| 0 <= i < self.entries().len() && o == self.entries()[i].0
                        && bits_hold_on_all_cores(self.entries()[i].1@, observed@[i]@)
                        && forall|k: int| 0 <= k < i ==> !bits_hold_on_all_cores(#[trigger] self.entries()[k].1@, observed@[k]@)
                ||| o == TweakOption::Enabled(false)
                        && forall|k: int| 0 <= k < self.entries().len() ==> !bits_hold_on_all_cores(#[trigger] self.entries()[k].1@, observed@[k]@)
            }),
    {
        proof {
            if self.readable {
                lemma_search_msr_meaning(self.entries(), observed@, 0);
            }
        }
        if !self.readable {
            return Ok(TweakOption::Enabled(false));
        }
        let n = msr_options_len(&self.options);
        let mut i: usize = 0;
        while i < n
            invariant
                n == self.entries().len(),
                i <= n,
                self.readable,
                msr_observations_fit(self.entries(), observed@, cores as nat),
                search_msr_options(self.entries(), observed@, 0) == search_msr_options(self.entries(), observed@, i as int),
            decreases n - i,
        {
            match msr_options_get_index(&self.options, i) {
                Some((option, steps)) => {
                    assert(observed@[i as int].len() == self.entries()[i as int].1.len());
                    assert(steps_in_range(self.entries()[i as int].1@));
                    match check_step_values(steps, &observed[i]) {
                        Err(message) => {
                            return Err(TweakError::ReadFailed { id: self.id, message });
                        },
                        Ok(true) => {
                            proof {
                                lemma_search_msr_meaning(self.entries(), observed@, 0);
                                let f = i as int;
                                assert(self.entries()[f].0 == *option);
                                assert(bits_hold_on_all_cores(self.entries()[f].1@, observed@[f]@));
                            }
                            return Ok(option.duplicate());
                        },
                        Ok(false) => {},
                    }
                },
                None => {},
            }
            i = i + 1;
        }
        proof {
            lemma_search_msr_meaning(self.entries(), observed@, 0);
        }
        Ok(TweakOption::Enabled(false))
    }
}

/// The registers of one core, by index.
pub type MsrModel = Map<u32, u64>;

/// Writing the steps one after another on one core, each with
/// `applied_value`.
pub open spec fn write_steps(regs: MsrModel, steps: Seq<MsrState>) -> MsrModel
    decreases steps.len(),
{
    if steps.len() == 0 {
        regs
    } else {
        let s = steps[0];
        write_steps(regs.insert(s.index, with_bit(regs[s.index], s.bit, s.state)), steps.drop_first())
    }
}

/// No two steps give one bit of one register different states.
pub open spec fn steps_consistent(steps: Seq<MsrState>) -> bool {
    forall|i: int, j: int| 0 <= i < steps.len() && 0 <= j < steps.len() && steps[i].index == steps[j].index
        && steps[i].bit == steps[j].bit ==> #[trigger] steps[i].state == #[trigger] steps[j].state
}

proof fn lemma_with_bit(x: u64, k: u32, state: bool, b: u64)
    requires
        k < 64,
        b < 64,
    ensures
        bit_of(with_bit(x, k, state), b) == (if b == k as u64 { state } else { bit_of(x, b) }),
{
    let kk = k as u64;
    if state {
        assert(((x | (1u64 << kk)) >> b) & 1u64 == 1u64 <==> (if b == kk { true } else { (x >> b) & 1u64 == 1u64 })) by (bit_vector)
            requires
                kk < 64,
                b < 64,
        ;
    } else {
        assert(((x & !(1u64 << kk)) >> b) & 1u64 == 1u64 <==> (if b == kk { false } else { (x >> b) & 1u64 == 1u64 })) by (bit_vector)
            requires
                kk < 64,
                b < 64,
        ;
    }
}

proof fn lemma_steps_keep_bit(regs: MsrModel, steps: Seq<MsrState>, m: MsrState)
    requires
        m.bit < 64,
        steps_in_range(steps),
        bit_of(regs[m.index], m.bit as u64) == m.state,
        forall|j: int| 0 <= j < steps.len() && steps[j].index == m.index && steps[j].bit == m.bit ==> steps[j].state == m.state,
    ensures
        bit_of(write_steps(regs, steps)[m.index], m.bit as u64) == m.state,
    decreases steps.len(),
{
    if steps.len() > 0 {
        let s = steps[0];
        assert(s.bit < 64);
        let next = regs.insert(s.index, with_bit(regs[s.index], s.bit, s.state));
        if s.index == m.index {
            lemma_with_bit(regs[s.index], s.bit, s.state, m.bit as u64);
        }
        assert(bit_of(next[m.index], m.bit as u64) == m.state);
        let rest = steps.drop_first();
        assert(steps_in_range(rest)) by {
            assert forall|i: int| 0 <= i < rest.len() implies #[trigger] rest[i].bit < 64 by {
                assert(rest[i] == steps[i + 1]);
            }
        }
        assert forall|j: int| 0 <= j < rest.len() && rest[j].index == m.index && rest[j].bit == m.bit implies rest[j].state == m.state by {
            assert(rest[j] == steps[j + 1]);
        }
        lemma_steps_keep_bit(next, rest, m);
    }
}

/// Read after write for registers: after the steps of an option have been
/// written on a core, each step's bit holds the step's state, whenever no
/// two steps give one bit different states.
pub proof fn lemma_msr_read_after_write(regs: MsrModel, steps: Seq<MsrState>)
    requires
        steps_in_range(steps),
        steps_consistent(steps),
    ensures
        forall|i: int| 0 <= i < steps.len() ==> bit_of(write_steps(regs, steps)[#[trigger] steps[i].index], steps[i].bit as u64) == steps[i].state,
    decreases steps.len(),
{
    if steps.len() > 0 {
        let s = steps[0];
        assert(s.bit < 64);
        let next = regs.insert(s.index, with_bit(regs[s.index], s.bit, s.state));
        let rest = steps.drop_first();
        assert(steps_in_range(rest)) by {
            assert forall|i: int| 0 <= i < rest.len() implies #[trigger] rest[i].bit < 64 by {
                assert(rest[i] == steps[i + 1]);
            }
        }
        assert(steps_consistent(rest)) by {
            assert forall|i: int, j: int| 0 <= i < rest.len() && 0 <= j < rest.len() && rest[i].index == rest[j].index
                && rest[i].bit == rest[j].bit implies #[trigger] rest[i].state == #[trigger] rest[j].state by {
                assert(rest[i] == steps[i + 1]);
                assert(rest[j] == steps[j + 1]);
            }
        }
        lemma_msr_read_after_write(next, rest);
        lemma_with_bit(regs[s.index], s.bit, s.state, s.bit as u64);
        assert forall|j: int| 0 <= j < rest.len() && rest[j].index == s.index && rest[j].bit == s.bit implies rest[j].state == s.state by {
            assert(rest[j] == steps[j + 1]);
        }
        lemma_steps_keep_bit(next, rest, s);
        assert forall|i: int| 0 <= i < steps.len() implies bit_of(write_steps(regs, steps)[#[trigger] steps[i].index], steps[i].bit as u64) == steps[i].state by {
            if i > 0 {
                assert(steps[i] == rest[i - 1]);
            }
        }
    }
}

/// Reads that show every step's bit in its state on every core make the
/// check of those steps succeed.
pub proof fn lemma_matching_reads_hold(steps: Seq<MsrState>, reads: Seq<Vec<MsrRead>>)
    requires
        reads.len() == steps.len(),
        forall|j: int, c: int| 0 <= j < steps.len() && 0 <= c < reads[j]@.len() ==> (#[trigger] reads[j]@[c] matches Ok(v) && bit_of(v, steps[j].bit as u64) == steps[j].state),
    ensures
        check_steps(steps, reads) == CheckOutcome::Holds,
    decreases steps.len(),
{
    if steps.len() > 0 {
        lemma_matching_core_reads(steps[0], reads[0]@);
        assert forall|j: int, c: int| 0 <= j < steps.drop_first().len() && 0 <= c < reads.drop_first()[j]@.len() implies (#[trigger] reads.drop_first()[j]@[c] matches Ok(v) && bit_of(v, steps.drop_first()[j].bit as u64) == steps.drop_first()[j].state) by {
            assert(reads.drop_first()[j] == reads[j + 1]);
            assert(steps.drop_first()[j] == steps[j + 1]);
        }
        lemma_matching_reads_hold(steps.drop_first(), reads.drop_first());
    }
}

proof fn lemma_matching_core_reads(step: MsrState, reads: Seq<MsrRead>)
    requires
        forall|c: int| 0 <= c < reads.len() ==> (#[trigger] reads[c] matches Ok(v) && bit_of(v, step.bit as u64) == step.state),
    ensures
        check_cores(step, reads) == CheckOutcome::Holds,
    decreases reads.len(),
{
    if reads.len() > 0 {
        assert(reads[0] matches Ok(v) && bit_of(v, step.bit as u64) == step.state);
        assert forall|c: int| 0 <= c < reads.drop_first().len() implies (#[trigger] reads.drop_first()[c] matches Ok(v) && bit_of(v, step.bit as u64) == step.state) by {
            assert(reads.drop_first()[c] == reads[c + 1]);
        }
        lemma_matching_core_reads(step, reads.drop_first());
    }
}

/// What a write of register steps is waiting for: the current value of the
/// register (to compute the new one), the write of the new value, or the
/// value read back after the write.
#[derive(Debug, Clone, Copy, PartialEq, Eq, Structural)]
pub enum MsrWritePhase {
    ReadCurrent,
    Write,
    ReadBack,
}

/// Where the writing of a list of steps stands: the step and core at hand,
/// what is awaited, and the value written (once there is one).
#[derive(Debug, Clone, Copy, PartialEq, Eq, Structural)]
pub struct MsrWriteState {
    pub step: usize,
    pub core: u32,
    pub phase: MsrWritePhase,
    pub expected: u64,
}

/// How the last read or write went: a read gave a value, a write was done,
/// or either failed with a message.
#[derive(Debug)]
pub enum MsrEvent {
    Value(u64),
    Written,
    Failed(String),
}

/// What to do next: read a register on a core, write a value to it, or stop
/// with this result.
#[derive(Debug)]
pub enum MsrAction {
    Read { index: u32, core: u32 },
    Write { index: u32, core: u32, value: u64 },
    Finish(Result<(), TweakError>),
}

/// The state waiting for the current value of step `step` on core `core`.
pub open spec fn reading_current(step: usize, core: u32) -> MsrWriteState {
    MsrWriteState { step, core, phase: MsrWritePhase::ReadCurrent, expected: 0 }
}

impl MSRTweak {
    /// The first step of writing `steps` on cores `0..cores`: read the first
    /// step's register on core 0, or finish at once when there is nothing
    /// to write.
    pub fn write_start(steps: &Vec<MsrState>, cores: u32) -> (r: (MsrWriteState, MsrAction))
        ensures
            r.0 == reading_current(0, 0),
            steps.len() == 0 || cores == 0 ==> r.1 == MsrAction::Finish(Ok::<(), TweakError>(())),
            steps.len() > 0 && cores > 0 ==> r.1 == (MsrAction::Read { index: steps@[0].index, core: 0 }),
    {
        let st = MsrWriteState { step: 0, core: 0, phase: MsrWritePhase::ReadCurrent, expected: 0 };
        if steps.len() == 0 || cores == 0 {
            (st, MsrAction::Finish(Ok(())))
        } else {
            (st, MsrAction::Read { index: steps[0].index, core: 0 })
        }
    }

    /// The next step of writing `steps` on every core, once `event` reports
    /// how the last read or write went. Each step is done core by core: the
    /// register is read, the step's bit is set to its state in that value and
    /// the result written, and the register is read back; a value read back
    /// other than the one written stops the write with `MsrVerifyFailed`,
    /// and a failed read or write stops it with `ReadFailed` or
    /// `WriteFailed`. After the last core of the last step the write
    /// succeeds.
    pub fn write_continue(&self, steps: &Vec<MsrState>, cores: u32, state: MsrWriteState, event: MsrEvent) -> (r: (MsrWriteState, MsrAction))
        requires
            steps_in_range(steps@),
            state.step < steps.len(),
            state.core < cores,
            state.phase == MsrWritePhase::Write ==> !(event is Value),
            state.phase != MsrWritePhase::Write ==> !(event is Written),
        ensures
            ({
                let step = steps@[state.step as int];
                match state.phase {
                    MsrWritePhase::ReadCurrent => match event {
                        MsrEvent::Value(v) => {
                            let nv = with_bit(v, step.bit, step.state);
                            &&& r.0 == (MsrWriteState { step: state.step, core: state.core, phase: MsrWritePhase::Write, expected: nv })
                            &&& r.1 == (MsrAction::Write { index: step.index, core: state.core, value: nv })
                        },
                        MsrEvent::Failed(e) => r.1 == MsrAction::Finish(Err::<(), TweakError>(TweakError::ReadFailed { id: self.id, message: e })),
                        MsrEvent::Written => true,
                    },
                    MsrWritePhase::Write => match event {
                        MsrEvent::Written => {
                            &&& r.0 == (MsrWriteState { step: state.step, core: state.core, phase: MsrWritePhase::ReadBack, expected: state.expected })
                            &&& r.1 == (MsrAction::Read { index: step.index, core: state.core })
                        },
                        MsrEvent::Failed(e) => r.1 == MsrAction::Finish(Err::<(), TweakError>(TweakError::WriteFailed { id: self.id, message: e })),
                        MsrEvent::Value(_) => true,
                    },
                    MsrWritePhase::ReadBack => match event {
                        MsrEvent::Value(v) => if v != state.expected {
                            r.1 == MsrAction::Finish(Err::<(), TweakError>(TweakError::MsrVerifyFailed { id: self.id, index: step.index, core: state.core, expected: state.expected, found: v }))
                        } else if state.core + 1 < cores {
                            r.0 == reading_current(state.step, (state.core + 1) as u32)
                                && r.1 == (MsrAction::Read { index: step.index, core: (state.core + 1) as u32 })
                        } else if state.step + 1 < steps.len() {
                            r.0 == reading_current((state.step + 1) as usize, 0)
                                && r.1 == (MsrAction::Read { index: steps@[state.step + 1].index, core: 0 })
                        } else {
                            r.1 == MsrAction::Finish(Ok::<(), TweakError>(()))
                        },
                        MsrEvent::Failed(e) => r.1 == MsrAction::Finish(Err::<(), TweakError>(TweakError::ReadFailed { id: self.id, message: e })),
                        MsrEvent::Written => true,
                    },
                }
            }),
    {
        let step = &steps[state.step];
        match state.phase {
            MsrWritePhase::ReadCurrent => match event {
                MsrEvent::Value(v) => {
                    let nv = Self::applied_value(v, step);
                    (MsrWriteState { step: state.step, core: state.core, phase: MsrWritePhase::Write, expected: nv },
                     MsrAction::Write { index: step.index, core: state.core, value: nv })
                },
                MsrEvent::Failed(e) => (state, MsrAction::Finish(Err(TweakError::ReadFailed { id: self.id, message: e }))),
                MsrEvent::Written => {
                    proof {
                        assert(false);
                    }
                    (state, MsrAction::Finish(Ok(())))
                },
            },
            MsrWritePhase::Write => match event {
                MsrEvent::Written => (MsrWriteState { step: state.step, core: state.core, phase: MsrWritePhase::ReadBack, expected: state.expected },
                                      MsrAction::Read { index: step.index, core: state.core }),
                MsrEvent::Failed(e) => (state, MsrAction::Finish(Err(TweakError::WriteFailed { id: self.id, message: e }))),
                MsrEvent::Value(_) => {
                    proof {
                        assert(false);
                    }
                    (state, MsrAction::Finish(Ok(())))
                },
            },
            MsrWritePhase::ReadBack => match event {
                MsrEvent::Value(v) => {
                    match self.verify_write(step, state.core, state.expected, v) {
                        Err(e) => (state, MsrAction::Finish(Err(e))),
                        Ok(()) => {
                            if state.core + 1 < cores {
                                (MsrWriteState { step: state.step, core: state.core + 1, phase: MsrWritePhase::ReadCurrent, expected: 0 },
                                 MsrAction::Read { index: step.index, core: state.core + 1 })
                            } else if state.step + 1 < steps.len() {
                                (MsrWriteState { step: state.step + 1, core: 0, phase: MsrWritePhase::ReadCurrent, expected: 0 },
                                 MsrAction::Read { index: steps[state.step + 1].index, core: 0 })
                            } else {
                                (state, MsrAction::Finish(Ok(())))
                            }
                        },
                    }
                },
                MsrEvent::Failed(e) => (state, MsrAction::Finish(Err(TweakError::ReadFailed { id: self.id, message: e }))),
                MsrEvent::Written => {
                    proof {
                        assert(false);
                    }
                    (state, MsrAction::Finish(Ok(())))
                },
            },
        }
    }
}

/// The low half (`eax`) and high half (`edx`) of a register value, as the
/// driver's read and write calls pass them.
pub open spec fn halves_of(v: u64) -> (u32, u32) {
    ((v % 0x1_0000_0000) as u32, (v / 0x1_0000_0000) as u32)
}

/// The register value made of a low and a high half.
pub open spec fn value_of_halves(eax: u32, edx: u32) -> u64 {
    (edx * 0x1_0000_0000 + eax) as u64
}

/// Splits a register value into the halves that a write passes.
pub fn split_msr_value(value: u64) -> (r: (u32, u32))
    ensures
        r == halves_of(value),
{
    let eax = (value & 0xFFFF_FFFF) as u32;
    let edx = (value >> 32) as u32;
    assert(value & 0xFFFF_FFFF == value % 0x1_0000_0000) by (bit_vector);
    assert(value >> 32 == value / 0x1_0000_0000) by (bit_vector);
    (eax, edx)
}

/// Joins the halves that a read returns into the register value.
pub fn join_msr_value(eax: u32, edx: u32) -> (r: u64)
    ensures
        r == value_of_halves(eax, edx),
{
    let r = ((edx as u64) << 32) | (eax as u64);
    assert(((edx as u64) << 32) | (eax as u64) == (edx as u64) * 0x1_0000_0000 + (eax as u64)) by (bit_vector);
    r
}

/// Splitting a register value and joining the halves gives the value back,
/// and joining two halves and splitting the result gives the halves back.
pub proof fn lemma_halves_round_trip(v: u64, eax: u32, edx: u32)
    ensures
        value_of_halves(halves_of(v).0, halves_of(v).1) == v,
        halves_of(value_of_halves(eax, edx)) == (eax, edx),
{
}

/// The processor mask that selects one core: bit `core` set.
pub fn core_affinity_mask(core: u32) -> (r: u64)
    requires
        core < 64,
    ensures
        bit_of(r, core as u64),
        forall|b: u64| b < 64 && b != core ==> !#[trigger] bit_of(r, b),
{
    let r = 1u64 << core;
    assert forall|b: u64| b < 64 && b != core implies !#[trigger] bit_of(r, b) by {
        assert(b < 64 && b != core as u64 ==> ((1u64 << (core as u64)) >> b) & 1u64 != 1u64) by (bit_vector)
            requires core < 64;
    }
    assert(((1u64 << (core as u64)) >> (core as u64)) & 1u64 == 1u64) by (bit_vector)
        requires core < 64;
    r
}

} // verus!
