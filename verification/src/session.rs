//! The state of the tool's window: the table of tweaks with the state and
//! status of each, how the results of tasks change it, and the tasks that the
//! user's choices start.
use vstd::prelude::*;
use crate::orchestrator::{TweakAction, TweakResult, TweakTask};
use crate::tweaks::{Tweak, TweakCategory, TweakId, TweakOption, TweakStatus};

verus! {

/// The tweaks on show and how far the reading of their initial states has
/// come.
#[derive(Debug)]
pub struct Session {
    /// The tweaks, keyed by identifier.
    pub tweaks: Vec<(TweakId, Tweak)>,
    /// Whether every initial state has been read.
    pub initial_states_loaded: bool,
    /// How many initial state reads are still outstanding.
    pub pending_initial_state_reads: usize,
}

/// The position of the first entry with identifier `id`, or -1.
pub open spec fn position_of(tweaks: Seq<(TweakId, Tweak)>, id: TweakId) -> int
    decreases tweaks.len(),
{
    if tweaks.len() == 0 {
        -1
    } else if tweaks.last().0 == id && position_of(tweaks.drop_last(), id) < 0 {
        tweaks.len() - 1
    } else {
        position_of(tweaks.drop_last(), id)
    }
}

/// The tweak as a result leaves it. A success sets the state that the
/// action brought about (or, for a read, the state read) and makes the tweak
/// idle; a failure with a message marks the tweak failed with it.
pub open spec fn after_result(t: Tweak, r: TweakResult) -> Tweak {
    if r.success {
        match r.action {
            TweakAction::SetOption(o) => Tweak { state: o, status: TweakStatus::Idle, ..t },
            TweakAction::Enable => Tweak { state: TweakOption::Enabled(true), status: TweakStatus::Idle, ..t },
            TweakAction::Disable => Tweak { state: TweakOption::Enabled(false), status: TweakStatus::Idle, ..t },
            TweakAction::ReadInitialState => Tweak { state: r.state.unwrap(), status: TweakStatus::Idle, ..t },
        }
    } else {
        match r.error {
            Some(e) => Tweak { status: TweakStatus::Failed(e), ..t },
            None => t,
        }
    }
}

/// What a result does to a tweak: after a success the tweak is idle and
/// shows on after `Enable`, off after `Disable`, the option set after
/// `SetOption`, and the option read after `ReadInitialState`; a failure
/// leaves its state as it was, and one with a message marks it failed with
/// that message. Nothing but the state and status changes.
pub proof fn lemma_after_result(t: Tweak, r: TweakResult)
    requires
        r.success && r.action is ReadInitialState ==> r.state is Some,
    ensures
        r.success ==> after_result(t, r).status == TweakStatus::Idle,
        r.success && r.action is Enable ==> after_result(t, r).state == TweakOption::Enabled(true),
        r.success && r.action is Disable ==> after_result(t, r).state == TweakOption::Enabled(false),
        r.success ==> (r.action matches TweakAction::SetOption(o) ==> after_result(t, r).state == o),
        r.success && r.action is ReadInitialState ==> Some(after_result(t, r).state) == r.state,
        !r.success ==> after_result(t, r).state == t.state,
        !r.success ==> (r.error matches Some(e) ==> after_result(t, r).status == TweakStatus::Failed(e)),
        after_result(t, r).name == t.name && after_result(t, r).method == t.method
            && after_result(t, r).options == t.options && after_result(t, r).pending_reboot == t.pending_reboot,
{
}

/// The tweak once the user chose `state` for it: it takes the state at
/// once, waits for a restart if it needs one, and is busy until the task
/// reports back.
pub open spec fn chosen(t: Tweak, state: TweakOption) -> Tweak {
    Tweak { state: state, status: TweakStatus::Busy, pending_reboot: t.pending_reboot || t.requires_reboot, ..t }
}

/// The identifiers of the tweaks of a category, in order.
pub open spec fn ids_in_category(tweaks: Seq<(TweakId, Tweak)>, category: TweakCategory) -> Seq<TweakId>
    decreases tweaks.len(),
{
    if tweaks.len() == 0 {
        Seq::empty()
    } else if tweaks.last().1.category == category {
        ids_in_category(tweaks.drop_last(), category).push(tweaks.last().0)
    } else {
        ids_in_category(tweaks.drop_last(), category)
    }
}

/// How many tweaks wait for a restart.
pub open spec fn count_pending_reboot(tweaks: Seq<(TweakId, Tweak)>) -> nat
    decreases tweaks.len(),
{
    if tweaks.len() == 0 {
        0
    } else {
        count_pending_reboot(tweaks.drop_last()) + if tweaks.last().1.pending_reboot { 1nat } else { 0nat }
    }
}

proof fn lemma_position_bound(tweaks: Seq<(TweakId, Tweak)>, id: TweakId)
    ensures
        -1 <= position_of(tweaks, id) < tweaks.len(),
        position_of(tweaks, id) >= 0 ==> tweaks[position_of(tweaks, id)].0 == id,
        position_of(tweaks, id) >= 0 ==> forall|j: int| 0 <= j < position_of(tweaks, id) ==> tweaks[j].0 != id,
        position_of(tweaks, id) < 0 ==> forall|j: int| 0 <= j < tweaks.len() ==> tweaks[j].0 != id,
    decreases tweaks.len(),
{
    if tweaks.len() > 0 {
        lemma_position_bound(tweaks.drop_last(), id);
        assert forall|j: int| 0 <= j < tweaks.len() - 1 implies tweaks.drop_last()[j] == tweaks[j] by {}
    }
}

impl Session {
    /// A session showing `tweaks`, with the reads of every initial state
    /// still to come: one read task per tweak, in table order.
    pub fn new(tweaks: Vec<(TweakId, Tweak)>) -> (r: (Session, Vec<TweakTask>))
        ensures
            r.0.tweaks@ == tweaks@,
            !r.0.initial_states_loaded,
            r.0.pending_initial_state_reads == tweaks.len(),
            r.1.len() == tweaks.len(),
            forall|i: int| 0 <= i < tweaks.len() ==> (#[trigger] r.1@[i]).id == tweaks@[i].0 && r.1@[i].action == TweakAction::ReadInitialState,
    {
        let mut tasks: Vec<TweakTask> = Vec::new();
        let mut i: usize = 0;
        while i < tweaks.len()
            invariant
                i <= tweaks.len(),
                tasks.len() == i,
                forall|k: int| 0 <= k < i ==> (#[trigger] tasks@[k]).id == tweaks@[k].0 && tasks@[k].action == TweakAction::ReadInitialState,
            decreases tweaks.len() - i,
        {
            tasks.push(TweakTask { id: tweaks[i].0, action: TweakAction::ReadInitialState });
            i = i + 1;
        }
        let n = tweaks.len();
        (Session { tweaks, initial_states_loaded: false, pending_initial_state_reads: n }, tasks)
    }

    /// The position of the tweak with identifier `id`.
    pub fn find(&self, id: TweakId) -> (r: Option<usize>)
        ensures
            position_of(self.tweaks@, id) < 0 ==> r is None,
            position_of(self.tweaks@, id) >= 0 ==> (r matches Some(i) && i as int == position_of(self.tweaks@, id)),
    {
        proof {
            lemma_position_bound(self.tweaks@, id);
        }
        let mut i: usize = 0;
        while i < self.tweaks.len()
            invariant
                i <= self.tweaks.len(),
                forall|j: int| 0 <= j < i ==> self.tweaks@[j].0 != id,
            decreases self.tweaks.len() - i,
        {
            if self.tweaks[i].0 == id {
                proof {
                    lemma_position_bound(self.tweaks@, id);
                }
                return Some(i);
            }
            i = i + 1;
        }
        None
    }

    /// How many tweaks wait for a restart.
    pub fn count_tweaks_pending_reboot(&self) -> (r: usize)
        ensures
            r == count_pending_reboot(self.tweaks@),
    {
        let mut n: usize = 0;
        let mut i: usize = 0;
        while i < self.tweaks.len()
            invariant
                i <= self.tweaks.len(),
                n == count_pending_reboot(self.tweaks@.take(i as int)),
                n <= i,
            decreases self.tweaks.len() - i,
        {
            assert(self.tweaks@.take(i + 1).drop_last() =~= self.tweaks@.take(i as int));
            if self.tweaks[i].1.pending_reboot {
                n = n + 1;
            }
            i = i + 1;
        }
        assert(self.tweaks@.take(i as int) =~= self.tweaks@);
        n
    }

    /// Sets the state and status of the tweak at position `p`.
    fn set_entry(&mut self, p: usize, state: TweakOption, status: TweakStatus)
        requires
            p < old(self).tweaks.len(),
        ensures
            final(self).initial_states_loaded == old(self).initial_states_loaded,
            final(self).pending_initial_state_reads == old(self).pending_initial_state_reads,
            final(self).tweaks@ == old(self).tweaks@.update(p as int, (old(self).tweaks@[p as int].0, Tweak { state: state, status: status, ..old(self).tweaks@[p as int].1 })),
    {
        self.tweaks[p].1.state = state;
        self.tweaks[p].1.status = status;
    }

    /// Takes in the result of a task. The tweak it is about (if the session
    /// shows it) takes the state and status the result brings about; a
    /// successful read of an initial state counts down the outstanding reads,
    /// and the reading is complete when none is left. A failure with a
    /// message asks for the tweak's state to be read again: that task is
    /// returned.
    pub fn update_tweak_state(&mut self, result: TweakResult) -> (r: Option<TweakTask>)
        requires
            result.success && result.action is ReadInitialState ==> result.state is Some,
        ensures
            position_of(old(self).tweaks@, result.id) < 0 ==> final(self).tweaks@ == old(self).tweaks@,
            position_of(old(self).tweaks@, result.id) >= 0 ==> final(self).tweaks@ == old(self).tweaks@.update(
                position_of(old(self).tweaks@, result.id),
                (result.id, after_result(old(self).tweaks@[position_of(old(self).tweaks@, result.id)].1, result)),
            ),
            position_of(old(self).tweaks@, result.id) >= 0 && result.success && result.action is ReadInitialState ==> {
                let left: int = if old(self).pending_initial_state_reads > 0 { old(self).pending_initial_state_reads - 1 } else { 0 };
                &&& final(self).pending_initial_state_reads == left
                &&& final(self).initial_states_loaded == (old(self).initial_states_loaded || left == 0)
            },
            !(position_of(old(self).tweaks@, result.id) >= 0 && result.success && result.action is ReadInitialState) ==> {
                &&& final(self).pending_initial_state_reads == old(self).pending_initial_state_reads
                &&& final(self).initial_states_loaded == old(self).initial_states_loaded
            },
            position_of(old(self).tweaks@, result.id) >= 0 && !result.success && result.error is Some
                ==> r == Some(TweakTask { id: result.id, action: TweakAction::ReadInitialState }),
            !(position_of(old(self).tweaks@, result.id) >= 0 && !result.success && result.error is Some) ==> r is None,
            final(self).tweaks.len() == old(self).tweaks.len(),
            position_of(old(self).tweaks@, result.id) >= 0 ==> {
                let p = position_of(old(self).tweaks@, result.id);
                let t = final(self).tweaks@[p].1;
                &&& final(self).tweaks@[p].0 == result.id
                &&& result.success ==> t.status == TweakStatus::Idle
                &&& result.success && result.action is Enable ==> t.state == TweakOption::Enabled(true)
                &&& result.success && result.action is Disable ==> t.state == TweakOption::Enabled(false)
                &&& result.success ==> (result.action matches TweakAction::SetOption(o) ==> t.state == o)
                &&& result.success && result.action is ReadInitialState ==> Some(t.state) == result.state
                &&& !result.success ==> t.state == old(self).tweaks@[p].1.state
            },
    {
        proof {
            lemma_position_bound(self.tweaks@, result.id);
            if position_of(self.tweaks@, result.id) >= 0 {
                lemma_after_result(self.tweaks@[position_of(self.tweaks@, result.id)].1, result);
            }
        }
        proof {
            lemma_position_bound(self.tweaks@, result.id);
        }
        let p = match self.find(result.id) {
            Some(p) => p,
            None => {
                return None;
            },
        };
        let ghost t = self.tweaks@[p as int].1;
        let TweakResult { id, success, error, action, state } = result;
        if success {
            match action {
                TweakAction::SetOption(option) => {
                    self.set_entry(p, option, TweakStatus::Idle);
                },
                TweakAction::Enable => {
                    self.set_entry(p, TweakOption::Enabled(true), TweakStatus::Idle);
                },
                TweakAction::Disable => {
                    self.set_entry(p, TweakOption::Enabled(false), TweakStatus::Idle);
                },
                TweakAction::ReadInitialState => {
                    let read = match state {
                        Some(s) => s,
                        None => TweakOption::Enabled(false),
                    };
                    self.set_entry(p, read, TweakStatus::Idle);
                    if self.pending_initial_state_reads > 0 {
                        self.pending_initial_state_reads = self.pending_initial_state_reads - 1;
                    }
                    if self.pending_initial_state_reads == 0 {
                        self.initial_states_loaded = true;
                    }
                },
            }
            None
        } else {
            match error {
                Some(message) => {
                    let current = self.tweaks[p].1.state.duplicate();
                    self.set_entry(p, current, TweakStatus::Failed(message));
                    Some(TweakTask { id, action: TweakAction::ReadInitialState })
                },
                None => {
                    assert(self.tweaks@ =~= self.tweaks@.update(p as int, (id, t)));
                    None
                },
            }
        }
    }

    /// Ends a round of updates: once no initial read is outstanding, the
    /// reading of initial states is complete.
    pub fn finish_updates(&mut self)
        ensures
            final(self).tweaks@ == old(self).tweaks@,
            final(self).pending_initial_state_reads == old(self).pending_initial_state_reads,
            final(self).initial_states_loaded == (old(self).initial_states_loaded || old(self).pending_initial_state_reads == 0),
    {
        if self.pending_initial_state_reads == 0 && !self.initial_states_loaded {
            self.initial_states_loaded = true;
        }
    }

    /// Records the user's choice of `state` for the tweak at position `p`:
    /// it waits for a restart if it needs one, and is busy.
    fn choose_state(&mut self, p: usize, state: TweakOption)
        requires
            p < old(self).tweaks.len(),
        ensures
            final(self).initial_states_loaded == old(self).initial_states_loaded,
            final(self).pending_initial_state_reads == old(self).pending_initial_state_reads,
            final(self).tweaks@ == old(self).tweaks@.update(p as int, (old(self).tweaks@[p as int].0, chosen(old(self).tweaks@[p as int].1, state))),
    {
        self.tweaks[p].1.state = state;
        if self.tweaks[p].1.requires_reboot {
            self.tweaks[p].1.pending_reboot = true;
        }
        self.tweaks[p].1.status = TweakStatus::Busy;
    }

    /// The user switched the tweak `id` on (`true`) or off: it takes that
    /// state at once, waits for a restart if it needs one, turns busy, and
    /// the task that enables or disables it is returned. A tweak the session
    /// does not show is left alone.
    pub fn toggle(&mut self, id: TweakId, is_enabled: bool) -> (r: Option<TweakTask>)
        ensures
            final(self).initial_states_loaded == old(self).initial_states_loaded,
            final(self).pending_initial_state_reads == old(self).pending_initial_state_reads,
            position_of(old(self).tweaks@, id) < 0 ==> final(self).tweaks@ == old(self).tweaks@ && r is None,
            position_of(old(self).tweaks@, id) >= 0 ==> {
                let p = position_of(old(self).tweaks@, id);
                &&& final(self).tweaks@ == old(self).tweaks@.update(p, (id, chosen(old(self).tweaks@[p].1, TweakOption::Enabled(is_enabled))))
                &&& r == Some(TweakTask { id: id, action: if is_enabled { TweakAction::Enable } else { TweakAction::Disable } })
            },
    {
        proof {
            lemma_position_bound(self.tweaks@, id);
        }
        match self.find(id) {
            Some(p) => {
                self.choose_state(p, TweakOption::Enabled(is_enabled));
                Some(TweakTask { id, action: if is_enabled { TweakAction::Enable } else { TweakAction::Disable } })
            },
            None => None,
        }
    }

    /// The user pressed the button of the tweak `id`: unless the tweak is
    /// busy already, it turns busy and the task that runs it is returned.
    pub fn press_button(&mut self, id: TweakId) -> (r: Option<TweakTask>)
        ensures
            final(self).initial_states_loaded == old(self).initial_states_loaded,
            final(self).pending_initial_state_reads == old(self).pending_initial_state_reads,
            position_of(old(self).tweaks@, id) < 0 ==> final(self).tweaks@ == old(self).tweaks@ && r is None,
            position_of(old(self).tweaks@, id) >= 0 ==> {
                let p = position_of(old(self).tweaks@, id);
                let t = old(self).tweaks@[p].1;
                if t.status is Busy {
                    final(self).tweaks@ == old(self).tweaks@ && r is None
                } else {
                    &&& final(self).tweaks@ == old(self).tweaks@.update(p, (id, Tweak { status: TweakStatus::Busy, ..t }))
                    &&& r == Some(TweakTask { id: id, action: TweakAction::Enable })
                }
            },
    {
        proof {
            lemma_position_bound(self.tweaks@, id);
        }
        match self.find(id) {
            Some(p) => {
                let busy = match self.tweaks[p].1.status {
                    TweakStatus::Busy => true,
                    _ => false,
                };
                if busy {
                    None
                } else {
                    let current = self.tweaks[p].1.state.duplicate();
                    self.set_entry(p, current, TweakStatus::Busy);
                    Some(TweakTask { id, action: TweakAction::Enable })
                }
            },
            None => None,
        }
    }

    /// The user picked the option at `index` in the list of the tweak `id`:
    /// the tweak takes that option at once, waits for a restart if it needs
    /// one, turns busy, and the task that sets the option is returned.
    pub fn select_option(&mut self, id: TweakId, index: usize) -> (r: Option<TweakTask>)
        requires
            position_of(old(self).tweaks@, id) >= 0 ==> index < old(self).tweaks@[position_of(old(self).tweaks@, id)].1.options.len(),
        ensures
            final(self).initial_states_loaded == old(self).initial_states_loaded,
            final(self).pending_initial_state_reads == old(self).pending_initial_state_reads,
            position_of(old(self).tweaks@, id) < 0 ==> final(self).tweaks@ == old(self).tweaks@ && r is None,
            position_of(old(self).tweaks@, id) >= 0 ==> {
                let p = position_of(old(self).tweaks@, id);
                let o = old(self).tweaks@[p].1.options@[index as int];
                &&& final(self).tweaks@ == old(self).tweaks@.update(p, (id, chosen(old(self).tweaks@[p].1, o)))
                &&& r == Some(TweakTask { id: id, action: TweakAction::SetOption(o) })
            },
    {
        proof {
            lemma_position_bound(self.tweaks@, id);
        }
        match self.find(id) {
            Some(p) => {
                let option = self.tweaks[p].1.options[index].duplicate();
                let chosen_option = option.duplicate();
                self.choose_state(p, chosen_option);
                Some(TweakTask { id, action: TweakAction::SetOption(option) })
            },
            None => None,
        }
    }

    /// The identifiers of the tweaks of a category, in table order.
    pub fn tweaks_in_category(&self, category: TweakCategory) -> (r: Vec<TweakId>)
        ensures
            r@ == ids_in_category(self.tweaks@, category),
    {
        let mut r: Vec<TweakId> = Vec::new();
        let mut i: usize = 0;
        while i < self.tweaks.len()
            invariant
                i <= self.tweaks.len(),
                r@ == ids_in_category(self.tweaks@.take(i as int), category),
            decreases self.tweaks.len() - i,
        {
            assert(self.tweaks@.take(i + 1).drop_last() =~= self.tweaks@.take(i as int));
            if self.tweaks[i].1.category == category {
                r.push(self.tweaks[i].0);
            }
            i = i + 1;
        }
        assert(self.tweaks@.take(i as int) =~= self.tweaks@);
        r
    }
}

/// The position of the tweak's state among its options, if it is one of
/// them: the first option equal to it.
pub fn selected_index(tweak: &Tweak) -> (r: Option<usize>)
    ensures
        r is None <==> (forall|i: int| 0 <= i < tweak.options.len() ==> #[trigger] tweak.options@[i]@ != tweak.state@),
        r matches Some(i) ==> i < tweak.options.len() && tweak.options@[i as int]@ == tweak.state@
            && forall|j: int| 0 <= j < i ==> #[trigger] tweak.options@[j]@ != tweak.state@,
{
    let mut i: usize = 0;
    while i < tweak.options.len()
        invariant
            i <= tweak.options.len(),
            forall|j: int| 0 <= j < i ==> #[trigger] tweak.options@[j]@ != tweak.state@,
        decreases tweak.options.len() - i,
    {
        if tweak.options[i].same_as(&tweak.state) {
            return Some(i);
        }
        i = i + 1;
    }
    None
}

} // verus!
