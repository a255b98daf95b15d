//! The scrape stages: crawling the search pages for product links, and what
//! their outcomes add up to.

pub mod kabum_product_handler;
pub mod kabum_search_handler;
pub mod kabum_search_parser;
pub mod page_scraper;
pub mod queue_scraper;

use vstd::prelude::*;
use vstd::string::*;
use crate::error::ScrapeError;
use crate::models::page::{Page, PageHandler};
use crate::models::product::clone_opt_string;
use crate::models::store::StoreId;
use crate::pool::{Dispatch, StageRun, UnitState};
use crate::web_url::WebUrl;

verus! {

/// An item of the queue: a product page to fetch, found on a search listing.
/// It lives for one cycle and is never stored.
#[derive(Debug)]
pub struct QueuePage {
    pub url: WebUrl,
    pub store_id: StoreId,
    pub handler: PageHandler,
    pub ean: Option<String>,
    pub gtin: Option<String>,
}

impl Clone for QueuePage {
    fn clone(&self) -> (r: Self)
        ensures
            r == *self,
    {
        QueuePage {
            url: self.url.clone(),
            store_id: self.store_id,
            handler: self.handler,
            ean: clone_opt_string(&self.ean),
            gtin: clone_opt_string(&self.gtin),
        }
    }
}

/// How a stage ended.
#[derive(Debug)]
pub enum ScrapResult<T> {
    /// The stage ran; this is what it produced.
    Finished(T),
    /// The stage could not load its entries; the cycle ends here.
    Skip,
}

/// What the entries of a stage add up to: the items of every entry that
/// succeeded, in the order of the entries. An entry that failed, `None` here,
/// adds nothing.
pub open spec fn harvest<T>(yields: Seq<Option<Seq<T>>>) -> Seq<T>
    decreases yields.len(),
{
    if yields.len() == 0 {
        Seq::<T>::empty()
    } else {
        harvest(yields.drop_last()) + match yields.last() {
            Some(items) => items,
            None => Seq::<T>::empty(),
        }
    }
}

/// The harvest of a run of entries is the harvest of its first `k` followed by
/// that of the rest.
pub proof fn lemma_harvest_split<T>(yields: Seq<Option<Seq<T>>>, k: int)
    requires
        0 <= k <= yields.len(),
    ensures
        harvest(yields) == harvest(yields.take(k)) + harvest(yields.skip(k)),
    decreases yields.len(),
{
    if k == yields.len() {
        assert(yields.take(k) =~= yields);
        assert(yields.skip(k) =~= Seq::<Option<Seq<T>>>::empty());
        assert(harvest(yields) =~= harvest(yields) + Seq::<T>::empty());
    } else {
        let shorter = yields.drop_last();
        lemma_harvest_split(shorter, k);
        assert(shorter.take(k) =~= yields.take(k));
        assert(yields.skip(k).drop_last() =~= shorter.skip(k));
        assert(yields.skip(k).last() == yields.last());
        let tail = match yields.last() {
            Some(items) => items,
            None => Seq::<T>::empty(),
        };
        assert(harvest(yields) =~= harvest(yields.take(k)) + (harvest(shorter.skip(k)) + tail));
    }
}

/// The harvest of a single entry is what that entry yields.
pub proof fn lemma_harvest_one<T>(entry: Option<Seq<T>>)
    ensures
        harvest(seq![entry]) == match entry {
            Some(items) => items,
            None => Seq::<T>::empty(),
        },
{
    let one = seq![entry];
    assert(one.drop_last() =~= Seq::<Option<Seq<T>>>::empty());
    assert(harvest(Seq::<Option<Seq<T>>>::empty()) =~= Seq::<T>::empty());
    assert(harvest(one) =~= match entry {
        Some(items) => items,
        None => Seq::<T>::empty(),
    });
}

/// An entry that fails takes nothing from the others: with entry `x` failed,
/// the harvest is that of the entries before `x` followed by that of the
/// entries after it, whatever `x` would have yielded.
pub proof fn lemma_failure_adds_nothing<T>(yields: Seq<Option<Seq<T>>>, x: int)
    requires
        0 <= x < yields.len(),
    ensures
        harvest(yields.update(x, None)) == harvest(yields.take(x)) + harvest(yields.skip(x + 1)),
{
    let failed = yields.update(x, None);
    lemma_harvest_split(failed, x);
    lemma_harvest_split(failed.skip(x), 1);
    assert(failed.take(x) =~= yields.take(x));
    assert(failed.skip(x).take(1) =~= seq![None::<Seq<T>>]);
    assert(failed.skip(x).skip(1) =~= yields.skip(x + 1));
    lemma_harvest_one(None::<Seq<T>>);
    assert(harvest(failed) =~= harvest(yields.take(x)) + harvest(yields.skip(x + 1)));
}

/// Where in the harvest the items of entry `y` begin.
pub open spec fn harvest_offset<T>(yields: Seq<Option<Seq<T>>>, y: int) -> int {
    harvest(yields.take(y)).len() as int
}

/// The items of an entry that succeeded stand in the harvest as one block.
pub proof fn lemma_harvest_holds_entry<T>(yields: Seq<Option<Seq<T>>>, y: int)
    requires
        0 <= y < yields.len(),
        yields[y] is Some,
    ensures
        harvest_offset(yields, y) + yields[y]->0.len() <= harvest(yields).len(),
        harvest(yields).subrange(
            harvest_offset(yields, y),
            harvest_offset(yields, y) + yields[y]->0.len(),
        ) == yields[y]->0,
{
    lemma_harvest_split(yields, y);
    lemma_harvest_split(yields.skip(y), 1);
    assert(yields.skip(y).take(1) =~= seq![yields[y]]);
    lemma_harvest_one(yields[y]);
    let before = harvest(yields.take(y));
    let own = yields[y]->0;
    let after = harvest(yields.skip(y).skip(1));
    assert(harvest(yields) =~= before + (own + after));
    assert((before + (own + after)).subrange(
        before.len() as int,
        before.len() as int + own.len() as int,
    ) =~= own);
}

/// A run in which entry `x` fails never reduces what any other entry `y`
/// yields: the items of `y` stand in the harvest in full, whether `x`
/// succeeded or failed.
pub proof fn lemma_failure_is_isolated<T>(yields: Seq<Option<Seq<T>>>, x: int, y: int)
    requires
        0 <= x < yields.len(),
        0 <= y < yields.len(),
        x != y,
        yields[y] is Some,
    ensures
        ({
            let failed = yields.update(x, None);
            let at = harvest_offset(failed, y);
            &&& at + yields[y]->0.len() <= harvest(failed).len()
            &&& harvest(failed).subrange(at, at + yields[y]->0.len()) == yields[y]->0
        }),
{
    lemma_harvest_holds_entry(yields.update(x, None), y);
}

/// How one entry of the search stage ended: with its items, or with a failure.
pub type EntryOutcome = Result<Vec<QueuePage>, ScrapeError>;

/// What each entry yields to the harvest: the items of an entry that has
/// succeeded, nothing of one that failed or has not ended.
pub open spec fn yields_of(outcomes: Seq<Option<EntryOutcome>>) -> Seq<Option<Seq<QueuePage>>> {
    Seq::new(
        outcomes.len(),
        |i: int|
            match outcomes[i] {
                Some(Ok(items)) => Some(items@),
                _ => None,
            },
    )
}

/// The state of a search stage.
pub struct SearchStageView {
    /// The entries, in the order in which they start.
    pub pages: Seq<Page>,
    /// The run of the entries under the pool.
    pub run: crate::pool::StageView,
    /// How each entry ended, as far as it has.
    pub outcomes: Seq<Option<EntryOutcome>>,
    /// Whether the entries could not be loaded.
    pub skipped: bool,
}

impl SearchStageView {
    /// One unit and one outcome per entry; an entry has an outcome exactly if
    /// its unit has ended; a skipped stage has no entries.
    pub open spec fn wf(self) -> bool {
        &&& self.run.wf()
        &&& self.run.units.len() == self.pages.len()
        &&& self.outcomes.len() == self.pages.len()
        &&& forall|i: int|
            0 <= i < self.outcomes.len() ==> (self.outcomes[i] is Some <==> self.run.units[i]
                == UnitState::Finished)
        &&& self.skipped ==> self.pages.len() == 0
    }
}

/// The search stage of one cycle: every active search page is read under the
/// pool, each on its own, and what they yield is gathered once all have ended.
#[derive(Debug)]
pub struct SearchStage {
    pages: Vec<Page>,
    run: StageRun,
    outcomes: Vec<Option<EntryOutcome>>,
    skipped: bool,
}

impl View for SearchStage {
    type V = SearchStageView;

    closed spec fn view(&self) -> SearchStageView {
        SearchStageView {
            pages: self.pages@,
            run: self.run@,
            outcomes: self.outcomes@,
            skipped: self.skipped,
        }
    }
}

impl SearchStage {
    /// Whether the stage is well formed.
    pub closed spec fn wf(&self) -> bool {
        &&& self.run.wf()
        &&& self@.wf()
    }

    /// What well-formedness says of the view.
    pub proof fn lemma_wf(&self)
        requires
            self.wf(),
        ensures
            self@.wf(),
    {
    }

    /// Begins the stage with the active search pages as the gateway listed
    /// them, under a pool of `permits` permits. Where the listing failed, the
    /// stage has no entries and ends as skipped.
    pub fn begin(listing: Result<Vec<Page>, ScrapeError>, permits: usize) -> (r: Self)
        ensures
            r.wf(),
            r@.pages == match listing {
                Ok(pages) => pages@,
                Err(_) => Seq::<Page>::empty(),
            },
            r@.run == crate::pool::StageView::initial(permits as nat, 0, r@.pages.len()),
            forall|i: int| 0 <= i < r@.outcomes.len() ==> r@.outcomes[i] is None,
            r@.skipped == listing is Err,
    {
        let (pages, skipped) = match listing {
            Ok(pages) => (pages, false),
            Err(_) => (Vec::new(), true),
        };
        let total: usize = pages.len();
        let mut outcomes: Vec<Option<EntryOutcome>> = Vec::new();
        let mut i: usize = 0;
        while i < total
            invariant
                i <= total,
                outcomes@.len() == i,
                forall|k: int| 0 <= k < i ==> outcomes@[k] is None,
            decreases total - i,
        {
            outcomes.push(None);
            i = i + 1;
        }
        let run = StageRun::new(total, permits, 0);
        proof {
            run.lemma_wf();
        }
        SearchStage { pages, run, outcomes, skipped }
    }

    /// The entry with the given index.
    pub fn page(&self, index: usize) -> (r: Option<&Page>)
        ensures
            r == if index < self@.pages.len() {
                Some(&self@.pages[index as int])
            } else {
                None
            },
    {
        if index < self.pages.len() {
            Some(&self.pages[index])
        } else {
            None
        }
    }

    /// The number of entries that are being read, which never exceeds the
    /// permits.
    pub fn in_flight(&self) -> (r: usize)
        requires
            self.wf(),
        ensures
            r == self@.run.running(),
            r <= self@.run.capacity,
    {
        self.run.in_flight()
    }

    /// Decides what is done next (see `StageRun::poll`).
    pub fn poll(&mut self, now: u64) -> (r: Dispatch)
        requires
            old(self).wf(),
        ensures
            final(self).wf(),
            (final(self)@.run, r) == old(self)@.run.poll(now),
            final(self)@.pages == old(self)@.pages,
            final(self)@.outcomes == old(self)@.outcomes,
            final(self)@.skipped == old(self)@.skipped,
    {
        proof {
            self.run.lemma_wf();
        }
        let r = self.run.poll(now);
        proof {
            self.run.lemma_wf();
            assert forall|i: int| 0 <= i < self@.outcomes.len() implies (self@.outcomes[i] is Some
                <==> self@.run.units[i] == UnitState::Finished) by {
                assert(old(self)@.outcomes[i] is Some <==> old(self)@.run.units[i]
                    == UnitState::Finished);
                if i == old(self)@.run.next {
                    assert(old(self)@.run.units[i] == UnitState::Waiting);
                }
            }
        }
        r
    }

    /// Records how the entry `index` ended and gives its permit back. Says
    /// whether the entry was being read; an outcome for any other entry is
    /// dropped and changes nothing.
    pub fn complete(&mut self, index: usize, outcome: EntryOutcome) -> (r: bool)
        requires
            old(self).wf(),
        ensures
            final(self).wf(),
            r == (index < old(self)@.pages.len() && old(self)@.run.units[index as int]
                == UnitState::Running),
            final(self)@.run == old(self)@.run.complete(index as int),
            final(self)@.pages == old(self)@.pages,
            final(self)@.skipped == old(self)@.skipped,
            final(self)@.outcomes == if r {
                old(self)@.outcomes.update(index as int, Some(outcome))
            } else {
                old(self)@.outcomes
            },
    {
        proof {
            self.run.lemma_wf();
        }
        let was_running = self.run.complete(index);
        proof {
            self.run.lemma_wf();
        }
        if was_running {
            self.outcomes.set(index, Some(outcome));
            true
        } else {
            false
        }
    }

    /// Ends the stage behind its barrier. While an entry has not ended, the
    /// stage is handed back unchanged. A stage whose entries could not be
    /// loaded is skipped. Otherwise the result is the harvest: the items of
    /// every entry that succeeded, in the order of the entries; an entry that
    /// failed adds nothing.
    pub fn finish(self) -> (r: Result<ScrapResult<Vec<QueuePage>>, SearchStage>)
        requires
            self.wf(),
        ensures
            match r {
                Ok(ScrapResult::Skip) => self@.skipped,
                Ok(ScrapResult::Finished(items)) => {
                    &&& !self@.skipped
                    &&& self@.run.all_finished()
                    &&& items@ == harvest(yields_of(self@.outcomes))
                },
                Err(stage) => {
                    &&& stage == self
                    &&& !self@.run.all_finished()
                },
            },
    {
        if !self.run.is_done() {
            return Err(self);
        }
        if self.skipped {
            return Ok(ScrapResult::Skip);
        }
        let ghost yields = yields_of(self.outcomes@);
        let mut items: Vec<QueuePage> = Vec::new();
        let mut i: usize = 0;
        proof {
            assert(yields.take(0) =~= Seq::<Option<Seq<QueuePage>>>::empty());
        }
        while i < self.outcomes.len()
            invariant
                i <= self.outcomes@.len(),
                yields == yields_of(self.outcomes@),
                items@ == harvest(yields.take(i as int)),
            decreases self.outcomes@.len() - i,
        {
            proof {
                assert(yields.take(i + 1).drop_last() =~= yields.take(i as int));
                assert(yields.take(i + 1).last() == yields[i as int]);
            }
            match &self.outcomes[i] {
                Some(Ok(found)) => {
                    let ghost before = items@;
                    let mut j: usize = 0;
                    while j < found.len()
                        invariant
                            j <= found@.len(),
                            items@ == before + found@.take(j as int),
                        decreases found@.len() - j,
                    {
                        items.push(found[j].clone());
                        proof {
                            assert(found@.take(j + 1) =~= found@.take(j as int).push(found@[j as int]));
                        }
                        j = j + 1;
                    }
                    proof {
                        assert(found@.take(j as int) =~= found@);
                    }
                },
                _ => {
                    proof {
                        assert(items@ + Seq::<QueuePage>::empty() =~= items@);
                    }
                },
            }
            i = i + 1;
        }
        proof {
            assert(yields.take(i as int) =~= yields);
        }
        Ok(ScrapResult::Finished(items))
    }
}

} // verus!
