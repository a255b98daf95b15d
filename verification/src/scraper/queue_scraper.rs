//! The detail stage: every item of the queue is fetched under a pool of its
//! own, with a least delay between two starts so as not to trip the vendor's
//! rate limits. An item that fails is dropped; the others go on.

use vstd::prelude::*;
use vstd::string::*;
use crate::error::ScrapeError;
use crate::models::product_price::ProductPrice;
use crate::pool::{Dispatch, StageRun, StageView, UnitState};
use crate::scraper::kabum_product_handler::DetailTask;
use crate::scraper::QueuePage;

verus! {

/// The permits of the detail stage.
pub const CONCURRENT_LIMIT: usize = 10;

/// The least delay between two starts in the detail stage, in milliseconds.
pub const DISPATCH_DELAY_MS: u64 = 300;

/// How one item ended: with the price that was recorded, or with a failure.
pub type ItemOutcome = Result<ProductPrice, ScrapeError>;

/// How a task that has ended did so; `None` while it has not.
pub open spec fn task_outcome(task: DetailTask) -> Option<ItemOutcome> {
    match task {
        DetailTask::Persisted { price } => Some(Ok(price)),
        DetailTask::Failed { error } => Some(Err(error)),
        _ => None,
    }
}

/// How a task that has ended did so; `None` while it has not.
pub fn outcome_of(task: DetailTask) -> (r: Option<ItemOutcome>)
    ensures
        r == task_outcome(task),
{
    match task {
        DetailTask::Persisted { price } => Some(Ok(price)),
        DetailTask::Failed { error } => Some(Err(error)),
        _ => None,
    }
}

/// The state of a detail stage.
pub struct QueueView {
    /// The items, in the order in which they start.
    pub queue: Seq<QueuePage>,
    /// The run of the items under the pool.
    pub run: StageView,
    /// How each item ended, as far as it has.
    pub outcomes: Seq<Option<ItemOutcome>>,
}

impl QueueView {
    /// One unit and one outcome per item; an item has an outcome exactly if
    /// its unit has ended.
    pub open spec fn wf(self) -> bool {
        &&& self.run.wf()
        &&& self.run.units.len() == self.queue.len()
        &&& self.outcomes.len() == self.queue.len()
        &&& forall|i: int|
            0 <= i < self.outcomes.len() ==> (self.outcomes[i] is Some <==> self.run.units[i]
                == UnitState::Finished)
    }
}

/// The detail stage of one cycle.
#[derive(Debug)]
pub struct QueueScraper {
    queue: Vec<QueuePage>,
    run: StageRun,
    outcomes: Vec<Option<ItemOutcome>>,
}

impl View for QueueScraper {
    type V = QueueView;

    closed spec fn view(&self) -> QueueView {
        QueueView { queue: self.queue@, run: self.run@, outcomes: self.outcomes@ }
    }
}

impl QueueScraper {
    /// Whether the stage is well formed.
    pub closed spec fn wf(&self) -> bool {
        &&& self.run.wf()
        &&& self@.wf()
    }

    /// What well-formedness says of the view.
    pub proof fn lemma_wf(&self)
        requires
            self.wf(),
        ensures
            self@.wf(),
    {
    }

    /// The stage for the given queue, with `CONCURRENT_LIMIT` permits and
    /// `DISPATCH_DELAY_MS` between two starts; moments are in milliseconds.
    pub fn new(queue: Vec<QueuePage>) -> (r: Self)
        ensures
            r.wf(),
            r@.queue == queue@,
            r@.run == StageView::initial(
                CONCURRENT_LIMIT as nat,
                DISPATCH_DELAY_MS,
                queue@.len(),
            ),
            forall|i: int| 0 <= i < r@.outcomes.len() ==> r@.outcomes[i] is None,
    {
        Self::with_limits(queue, CONCURRENT_LIMIT, DISPATCH_DELAY_MS)
    }

    /// The stage for the given queue, with `permits` permits and at least
    /// `delay` between two starts.
    pub fn with_limits(queue: Vec<QueuePage>, permits: usize, delay: u64) -> (r: Self)
        ensures
            r.wf(),
            r@.queue == queue@,
            r@.run == StageView::initial(permits as nat, delay, queue@.len()),
            forall|i: int| 0 <= i < r@.outcomes.len() ==> r@.outcomes[i] is None,
    {
        let total: usize = queue.len();
        let mut outcomes: Vec<Option<ItemOutcome>> = Vec::new();
        let mut i: usize = 0;
        while i < total
            invariant
                i <= total,
                outcomes@.len() == i,
                forall|k: int| 0 <= k < i ==> outcomes@[k] is None,
            decreases total - i,
        {
            outcomes.push(None);
            i = i + 1;
        }
        let run = StageRun::new(total, permits, delay);
        proof {
            run.lemma_wf();
        }
        QueueScraper { queue, run, outcomes }
    }

    /// The item with the given index.
    pub fn item(&self, index: usize) -> (r: Option<&QueuePage>)
        ensures
            r == if index < self@.queue.len() {
                Some(&self@.queue[index as int])
            } else {
                None
            },
    {
        if index < self.queue.len() {
            Some(&self.queue[index])
        } else {
            None
        }
    }

    /// The number of items that are being fetched, which never exceeds the
    /// permits.
    pub fn in_flight(&self) -> (r: usize)
        requires
            self.wf(),
        ensures
            r == self@.run.running(),
            r <= self@.run.capacity,
    {
        self.run.in_flight()
    }

    /// Decides what is done next (see `StageRun::poll`).
    pub fn poll(&mut self, now: u64) -> (r: Dispatch)
        requires
            old(self).wf(),
        ensures
            final(self).wf(),
            (final(self)@.run, r) == old(self)@.run.poll(now),
            final(self)@.queue == old(self)@.queue,
            final(self)@.outcomes == old(self)@.outcomes,
    {
        proof {
            self.run.lemma_wf();
        }
        let r = self.run.poll(now);
        proof {
            self.run.lemma_wf();
            assert forall|i: int| 0 <= i < self@.outcomes.len() implies (self@.outcomes[i] is Some
                <==> self@.run.units[i] == UnitState::Finished) by {
                assert(old(self)@.outcomes[i] is Some <==> old(self)@.run.units[i]
                    == UnitState::Finished);
                if i == old(self)@.run.next {
                    assert(old(self)@.run.units[i] == UnitState::Waiting);
                }
            }
        }
        r
    }

    /// Records how the item `index` ended and gives its permit back. Says
    /// whether the item was being fetched; an outcome for any other item is
    /// dropped and changes nothing.
    pub fn complete(&mut self, index: usize, outcome: ItemOutcome) -> (r: bool)
        requires
            old(self).wf(),
        ensures
            final(self).wf(),
            r == (index < old(self)@.queue.len() && old(self)@.run.units[index as int]
                == UnitState::Running),
            final(self)@.run == old(self)@.run.complete(index as int),
            final(self)@.queue == old(self)@.queue,
            final(self)@.outcomes == if r {
                old(self)@.outcomes.update(index as int, Some(outcome))
            } else {
                old(self)@.outcomes
            },
    {
        proof {
            self.run.lemma_wf();
        }
        let was_running = self.run.complete(index);
        proof {
            self.run.lemma_wf();
        }
        if was_running {
            self.outcomes.set(index, Some(outcome));
            true
        } else {
            false
        }
    }

    /// Ends the stage behind its barrier. While an item has not ended, the
    /// stage is handed back unchanged. Otherwise the result holds, for every
    /// item of the queue in order, how it ended: no failure of one item keeps
    /// another from its outcome.
    pub fn finish(self) -> (r: Result<Vec<ItemOutcome>, QueueScraper>)
        requires
            self.wf(),
        ensures
            match r {
                Ok(outcomes) => {
                    &&& self@.run.all_finished()
                    &&& outcomes@.len() == self@.queue.len()
                    &&& forall|i: int|
                        0 <= i < outcomes@.len() ==> self@.outcomes[i] == Some(
                            #[trigger] outcomes@[i],
                        )
                },
                Err(stage) => {
                    &&& stage == self
                    &&& !self@.run.all_finished()
                },
            },
    {
        if !self.run.is_done() {
            return Err(self);
        }
        proof {
            self.run.lemma_wf();
        }
        let mut ended: Vec<ItemOutcome> = Vec::new();
        let mut i: usize = 0;
        while i < self.outcomes.len()
            invariant
                i <= self.outcomes@.len(),
                ended@.len() == i,
                self@.wf(),
                self@.run.all_finished(),
                forall|k: int| 0 <= k < i ==> self@.outcomes[k] == Some(#[trigger] ended@[k]),
            decreases self.outcomes@.len() - i,
        {
            assert(self@.outcomes[i as int] is Some <==> self@.run.units[i as int]
                == UnitState::Finished);
            match &self.outcomes[i] {
                Some(Ok(price)) => {
                    ended.push(Ok(*price));
                },
                Some(Err(error)) => {
                    ended.push(Err(error.clone()));
                },
                None => {
                    assert(false);
                },
            }
            i = i + 1;
        }
        Ok(ended)
    }
}

} // verus!
