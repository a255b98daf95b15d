//! The bounded worker pool: a fixed number of permits, and the run of one
//! stage's units of work under them, with an optional least delay between two
//! starts.
//!
//! The pool decides; it does not run anything. Whoever drives a stage asks
//! `StageRun::poll` what to do next, starts the unit it names, and reports each
//! unit that ends, well or badly, with `StageRun::complete`.

use vstd::prelude::*;

verus! {

/// What the permits of a pool amount to.
pub struct PoolView {
    pub capacity: nat,
    pub in_use: nat,
}

/// A pool of permits. A unit of work takes a permit before it starts and gives
/// it back when it has ended, so no more units than permits run at once.
#[derive(Debug)]
pub struct WorkerPool {
    capacity: usize,
    in_use: usize,
}

impl View for WorkerPool {
    type V = PoolView;

    closed spec fn view(&self) -> PoolView {
        PoolView { capacity: self.capacity as nat, in_use: self.in_use as nat }
    }
}

impl WorkerPool {
    #[verifier::type_invariant]
    spec fn within_capacity(self) -> bool {
        self.in_use <= self.capacity
    }

    /// A pool of `capacity` permits, none of them taken.
    pub fn new(capacity: usize) -> (r: Self)
        ensures
            r@ == (PoolView { capacity: capacity as nat, in_use: 0 }),
    {
        WorkerPool { capacity, in_use: 0 }
    }

    /// The number of permits.
    pub fn capacity(&self) -> (r: usize)
        ensures
            r == self@.capacity,
    {
        self.capacity
    }

    /// The number of permits that are taken, which never exceeds the capacity.
    pub fn in_use(&self) -> (r: usize)
        ensures
            r == self@.in_use,
            r <= self@.capacity,
    {
        proof {
            use_type_invariant(self);
        }
        self.in_use
    }

    /// The number of permits that are free.
    pub fn available(&self) -> (r: usize)
        ensures
            r == self@.capacity - self@.in_use,
    {
        proof {
            use_type_invariant(self);
        }
        self.capacity - self.in_use
    }

    /// Takes a permit if one is free, and says whether it did.
    pub fn try_acquire(&mut self) -> (r: bool)
        ensures
            r == (old(self)@.in_use < old(self)@.capacity),
            final(self)@.capacity == old(self)@.capacity,
            final(self)@.in_use == old(self)@.in_use + if r {
                1nat
            } else {
                0nat
            },
    {
        proof {
            use_type_invariant(&*self);
        }
        if self.in_use < self.capacity {
            self.in_use = self.in_use + 1;
            true
        } else {
            false
        }
    }

    /// Gives a permit back if one is taken, and says whether it did.
    pub fn release(&mut self) -> (r: bool)
        ensures
            r == (old(self)@.in_use > 0),
            final(self)@.capacity == old(self)@.capacity,
            final(self)@.in_use == old(self)@.in_use - if r {
                1nat
            } else {
                0nat
            },
    {
        proof {
            use_type_invariant(&*self);
        }
        if self.in_use > 0 {
            self.in_use = self.in_use - 1;
            true
        } else {
            false
        }
    }
}

/// Where one unit of work stands.
#[derive(Clone, Copy, Debug, PartialEq, Eq, Structural)]
pub enum UnitState {
    /// Not started.
    Waiting,
    /// Started, and holding a permit.
    Running,
    /// Ended, well or badly; its permit is given back.
    Finished,
}

/// What the driver of a stage does next.
#[derive(Clone, Copy, Debug, PartialEq, Eq, Structural)]
pub enum Dispatch {
    /// Start the unit with this index now; it holds a permit from here on.
    Start(usize),
    /// No unit may start before this moment; ask again then.
    WaitUntil(u64),
    /// Nothing can start until a running unit has ended; report it, then ask
    /// again.
    WaitForCompletion,
    /// Every unit has ended.
    Done,
}

/// The number of running units.
pub open spec fn running_count(units: Seq<UnitState>) -> nat
    decreases units.len(),
{
    if units.len() == 0 {
        0
    } else {
        running_count(units.drop_last()) + if units.last() == UnitState::Running {
            1nat
        } else {
            0nat
        }
    }
}

/// Changing one unit changes the count of running units by that unit alone.
pub proof fn lemma_running_count_update(units: Seq<UnitState>, index: int, state: UnitState)
    requires
        0 <= index < units.len(),
    ensures
        running_count(units.update(index, state)) + if units[index] == UnitState::Running {
            1nat
        } else {
            0nat
        } == running_count(units) + if state == UnitState::Running {
            1nat
        } else {
            0nat
        },
    decreases units.len(),
{
    let changed = units.update(index, state);
    if index == units.len() - 1 {
        assert(changed.drop_last() =~= units.drop_last());
    } else {
        assert(changed.drop_last() =~= units.drop_last().update(index, state));
        lemma_running_count_update(units.drop_last(), index, state);
    }
}

/// A running unit is counted.
pub proof fn lemma_running_count_positive(units: Seq<UnitState>, index: int)
    requires
        0 <= index < units.len(),
        units[index] == UnitState::Running,
    ensures
        running_count(units) >= 1,
    decreases units.len(),
{
    if index < units.len() - 1 {
        lemma_running_count_positive(units.drop_last(), index);
    }
}

/// Where no unit is running, the count is zero.
pub proof fn lemma_running_count_none(units: Seq<UnitState>)
    requires
        forall|i: int| 0 <= i < units.len() ==> units[i] != UnitState::Running,
    ensures
        running_count(units) == 0,
    decreases units.len(),
{
    if units.len() > 0 {
        lemma_running_count_none(units.drop_last());
    }
}

/// The state of a stage's run: the permits, the least delay between two
/// starts, each unit's state, how many units have started, and when the last
/// one did.
pub struct StageView {
    pub capacity: nat,
    pub gap: u64,
    pub units: Seq<UnitState>,
    pub next: nat,
    pub last_start: Option<u64>,
}

impl StageView {
    /// The run of `total` units before any has started.
    pub open spec fn initial(capacity: nat, gap: u64, total: nat) -> StageView {
        StageView {
            capacity,
            gap,
            units: Seq::new(total, |i: int| UnitState::Waiting),
            next: 0,
            last_start: None,
        }
    }

    /// The number of units that hold a permit.
    pub open spec fn running(self) -> nat {
        running_count(self.units)
    }

    /// Units start in order, and no more of them run than there are permits.
    pub open spec fn wf(self) -> bool {
        &&& self.next <= self.units.len()
        &&& forall|i: int| 0 <= i < self.next ==> self.units[i] != UnitState::Waiting
        &&& forall|i: int| self.next <= i < self.units.len() ==> self.units[i] == UnitState::Waiting
        &&& self.running() <= self.capacity
    }

    /// The first moment at which the next unit may start.
    pub open spec fn ready_at(self) -> int {
        match self.last_start {
            Some(t) => t + self.gap,
            None => 0,
        }
    }

    /// Whether every unit has ended.
    pub open spec fn all_finished(self) -> bool {
        forall|i: int| 0 <= i < self.units.len() ==> self.units[i] == UnitState::Finished
    }

    /// What is done next at the moment `now`, and the state after it. While
    /// units wait, the delay is observed first, then a permit is taken and the
    /// next unit starts. Once all have started, the run waits for those still
    /// running and is then done.
    pub open spec fn poll(self, now: u64) -> (StageView, Dispatch) {
        if self.next < self.units.len() {
            if now < self.ready_at() {
                let at = if self.ready_at() > u64::MAX {
                    u64::MAX
                } else {
                    self.ready_at() as u64
                };
                (self, Dispatch::WaitUntil(at))
            } else if self.running() >= self.capacity {
                (self, Dispatch::WaitForCompletion)
            } else {
                (
                    StageView {
                        units: self.units.update(self.next as int, UnitState::Running),
                        next: self.next + 1,
                        last_start: Some(now),
                        ..self
                    },
                    Dispatch::Start(self.next as usize),
                )
            }
        } else if self.running() > 0 {
            (self, Dispatch::WaitForCompletion)
        } else {
            (self, Dispatch::Done)
        }
    }

    /// The state after the unit `index` was reported as ended. A report for a
    /// unit that is not running changes nothing.
    pub open spec fn complete(self, index: int) -> StageView {
        if 0 <= index < self.units.len() && self.units[index] == UnitState::Running {
            StageView { units: self.units.update(index, UnitState::Finished), ..self }
        } else {
            self
        }
    }
}

/// One thing that happens to a run.
pub enum StageInput {
    /// The driver asks what to do at this moment.
    Poll(u64),
    /// The driver reports that the unit with this index has ended.
    Complete(int),
}

/// The state after one input.
pub open spec fn apply_input(s: StageView, input: StageInput) -> StageView {
    match input {
        StageInput::Poll(now) => s.poll(now).0,
        StageInput::Complete(index) => s.complete(index),
    }
}

/// The state after a sequence of inputs.
pub open spec fn apply_inputs(s: StageView, inputs: Seq<StageInput>) -> StageView
    decreases inputs.len(),
{
    if inputs.len() == 0 {
        s
    } else {
        apply_input(apply_inputs(s, inputs.drop_last()), inputs.last())
    }
}

/// A run that has not started is well formed for any number of permits.
pub proof fn lemma_initial_wf(capacity: nat, gap: u64, total: nat)
    ensures
        StageView::initial(capacity, gap, total).wf(),
        StageView::initial(capacity, gap, total).running() == 0,
{
    lemma_running_count_none(StageView::initial(capacity, gap, total).units);
}

/// No input leads a well-formed run to more running units than permits, and a
/// unit starts no sooner than the delay after the one before it.
pub proof fn lemma_input_keeps_wf(s: StageView, input: StageInput)
    requires
        s.wf(),
    ensures
        apply_input(s, input).wf(),
        apply_input(s, input).running() <= s.capacity,
        apply_input(s, input).capacity == s.capacity,
        input matches StageInput::Poll(now) ==> (s.poll(now).1 is Start ==> now >= s.ready_at()),
{
    match input {
        StageInput::Poll(now) => {
            if s.next < s.units.len() && now >= s.ready_at() && s.running() < s.capacity {
                lemma_running_count_update(s.units, s.next as int, UnitState::Running);
            }
        },
        StageInput::Complete(index) => {
            if 0 <= index < s.units.len() && s.units[index] == UnitState::Running {
                lemma_running_count_update(s.units, index, UnitState::Finished);
            }
        },
    }
}

/// Whatever the driver does and in whatever order units end, at no point of a
/// stage's run do more units run than the pool has permits.
pub proof fn lemma_never_over_capacity(
    capacity: nat,
    gap: u64,
    total: nat,
    inputs: Seq<StageInput>,
)
    ensures
        apply_inputs(StageView::initial(capacity, gap, total), inputs).wf(),
        apply_inputs(StageView::initial(capacity, gap, total), inputs).running() <= capacity,
        apply_inputs(StageView::initial(capacity, gap, total), inputs).capacity == capacity,
    decreases inputs.len(),
{
    if inputs.len() == 0 {
        lemma_initial_wf(capacity, gap, total);
    } else {
        lemma_never_over_capacity(capacity, gap, total, inputs.drop_last());
        lemma_input_keeps_wf(
            apply_inputs(StageView::initial(capacity, gap, total), inputs.drop_last()),
            inputs.last(),
        );
    }
}

/// A run is done only behind the barrier: when `poll` answers `Done`, every
/// unit has ended.
pub proof fn lemma_done_means_all_finished(s: StageView, now: u64)
    requires
        s.wf(),
        s.poll(now).1 == Dispatch::Done,
    ensures
        s.all_finished(),
{
    assert forall|i: int| 0 <= i < s.units.len() implies s.units[i] == UnitState::Finished by {
        if s.units[i] == UnitState::Running {
            lemma_running_count_positive(s.units, i);
        }
    }
}

/// The run of one stage's units under a pool.
#[derive(Debug)]
pub struct StageRun {
    pool: WorkerPool,
    gap: u64,
    units: Vec<UnitState>,
    next: usize,
    last_start: Option<u64>,
}

impl View for StageRun {
    type V = StageView;

    closed spec fn view(&self) -> StageView {
        StageView {
            capacity: self.pool@.capacity,
            gap: self.gap,
            units: self.units@,
            next: self.next as nat,
            last_start: self.last_start,
        }
    }
}

impl StageRun {
    /// Whether the run is well formed: its view is, and the pool's taken
    /// permits are exactly the running units.
    pub closed spec fn wf(&self) -> bool {
        &&& self@.wf()
        &&& self.pool@.in_use == running_count(self.units@)
    }

    /// What well-formedness says of the view.
    pub proof fn lemma_wf(&self)
        requires
            self.wf(),
        ensures
            self@.wf(),
    {
    }

    /// The run of `total` units under `permits` permits, with at least `gap`
    /// between two starts, in the unit of the moments given to `poll`.
    pub fn new(total: usize, permits: usize, gap: u64) -> (r: Self)
        ensures
            r.wf(),
            r@ == StageView::initial(permits as nat, gap, total as nat),
            r@.running() == 0,
    {
        let mut units: Vec<UnitState> = Vec::new();
        let mut i: usize = 0;
        while i < total
            invariant
                i <= total,
                units@.len() == i,
                forall|k: int| 0 <= k < i ==> units@[k] == UnitState::Waiting,
            decreases total - i,
        {
            units.push(UnitState::Waiting);
            i = i + 1;
        }
        let r = StageRun { pool: WorkerPool::new(permits), gap, units, next: 0, last_start: None };
        proof {
            assert(r@.units =~= StageView::initial(permits as nat, gap, total as nat).units);
            lemma_running_count_none(r.units@);
        }
        r
    }

    /// The number of units.
    pub fn total(&self) -> (r: usize)
        ensures
            r == self@.units.len(),
    {
        self.units.len()
    }

    /// The number of units that run, which never exceeds the permits.
    pub fn in_flight(&self) -> (r: usize)
        requires
            self.wf(),
        ensures
            r == self@.running(),
            r <= self@.capacity,
    {
        self.pool.in_use()
    }

    /// Where the unit `index` stands.
    pub fn state(&self, index: usize) -> (r: Option<UnitState>)
        ensures
            r == if index < self@.units.len() {
                Some(self@.units[index as int])
            } else {
                None
            },
    {
        if index < self.units.len() {
            Some(self.units[index])
        } else {
            None
        }
    }

    /// Whether every unit has ended.
    pub fn is_done(&self) -> (r: bool)
        requires
            self.wf(),
        ensures
            r == self@.all_finished(),
    {
        let r = self.next == self.units.len() && self.pool.in_use() == 0;
        proof {
            if r {
                assert forall|i: int| 0 <= i < self@.units.len() implies self@.units[i]
                    == UnitState::Finished by {
                    if self@.units[i] == UnitState::Running {
                        lemma_running_count_positive(self@.units, i);
                    }
                }
            } else if self.next == self.units.len() {
                if self@.all_finished() {
                    lemma_running_count_none(self@.units);
                }
            }
        }
        r
    }

    /// Decides what is done at the moment `now`, and takes a permit for the
    /// unit that it starts.
    pub fn poll(&mut self, now: u64) -> (r: Dispatch)
        requires
            old(self).wf(),
        ensures
            final(self).wf(),
            (final(self)@, r) == old(self)@.poll(now),
            final(self)@.running() == old(self)@.running() + if r is Start {
                1nat
            } else {
                0nat
            },
    {
        if self.next < self.units.len() {
            match self.last_start {
                Some(t) => {
                    if now < t || now - t < self.gap {
                        let at: u64 = if self.gap > u64::MAX - t {
                            u64::MAX
                        } else {
                            t + self.gap
                        };
                        return Dispatch::WaitUntil(at);
                    }
                },
                None => {},
            }
            if !self.pool.try_acquire() {
                return Dispatch::WaitForCompletion;
            }
            let index: usize = self.next;
            proof {
                lemma_running_count_update(self.units@, index as int, UnitState::Running);
            }
            self.units.set(index, UnitState::Running);
            self.next = index + 1;
            self.last_start = Some(now);
            Dispatch::Start(index)
        } else if self.pool.in_use() > 0 {
            Dispatch::WaitForCompletion
        } else {
            Dispatch::Done
        }
    }

    /// Records that the unit `index` has ended, and gives its permit back.
    /// Says whether the unit was running; a report for any other unit changes
    /// nothing.
    pub fn complete(&mut self, index: usize) -> (r: bool)
        requires
            old(self).wf(),
        ensures
            final(self).wf(),
            final(self)@ == old(self)@.complete(index as int),
            r == (index < old(self)@.units.len() && old(self)@.units[index as int]
                == UnitState::Running),
            final(self)@.running() == old(self)@.running() - if r {
                1nat
            } else {
                0nat
            },
    {
        if index < self.units.len() && self.units[index] == UnitState::Running {
            proof {
                lemma_running_count_update(self.units@, index as int, UnitState::Finished);
                lemma_running_count_positive(self.units@, index as int);
            }
            self.units.set(index, UnitState::Finished);
            self.pool.release();
            true
        } else {
            false
        }
    }
}

} // verus!
