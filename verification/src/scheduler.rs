//! The scheduler: one cycle per period, the two stages in order, and no
//! failure of a stage that reaches beyond its cycle.
//!
//! The scheduler decides and its driver acts: `Scheduler::step` takes what has
//! just happened and says what is to be done next.

use vstd::prelude::*;
use crate::error::ScrapeError;
use crate::scraper::{QueuePage, ScrapResult};

verus! {

/// The period between two cycles, in seconds: one day.
pub const INTERVAL_SECS: u64 = 60 * 60 * 24;

/// The permits of the search stage.
pub const CONCURRENT_LIMIT: usize = 2;

/// Where the scheduler stands.
#[derive(Debug, Clone, Copy, PartialEq, Eq, Structural)]
pub enum CyclePhase {
    /// Between two cycles.
    Idle,
    /// A cycle has begun; its rendering session is being opened.
    OpeningSession,
    /// The search stage runs.
    Crawling,
    /// The detail stage runs.
    Fetching,
    /// The stages are over; the rendering session is being released.
    Closing,
}

/// What has happened.
#[derive(Debug)]
pub enum CycleEvent {
    /// The period has elapsed.
    Tick,
    /// The rendering session is open.
    SessionOpened,
    /// No rendering session could be had.
    SessionFailed(ScrapeError),
    /// The search stage has ended.
    SearchEnded(ScrapResult<Vec<QueuePage>>),
    /// The search stage has failed as a whole.
    SearchFailed(ScrapeError),
    /// The detail stage has ended.
    DetailEnded,
    /// The detail stage has failed as a whole.
    DetailFailed(ScrapeError),
    /// The rendering session is released.
    SessionReleased,
}

/// What is to be done.
#[derive(Debug)]
pub enum CycleAction {
    /// Wait for the period to elapse.
    WaitForTick,
    /// Open a rendering session.
    OpenSession,
    /// Run the search stage under this many permits.
    RunSearch(usize),
    /// Run the detail stage on these items.
    RunDetail(Vec<QueuePage>),
    /// Release the rendering session.
    ReleaseSession,
    /// Nothing new: what is under way goes on.
    Continue,
}

/// What the scheduler in the phase `phase` makes of `event`: its next phase,
/// and what is to be done.
///
/// A tick begins a cycle only between cycles, so cycles never overlap. The
/// detail stage runs only once the search stage has ended, on the items it
/// ended with. A search stage that was skipped, and any stage that failed,
/// ends the cycle; the session is then released and the next tick is awaited.
/// A cycle that gets no session ends at once. An event that does not fit the
/// phase changes nothing.
pub open spec fn cycle_step(phase: CyclePhase, event: CycleEvent) -> (CyclePhase, CycleAction) {
    match (phase, event) {
        (CyclePhase::Idle, CycleEvent::Tick) => (
            CyclePhase::OpeningSession,
            CycleAction::OpenSession,
        ),
        (CyclePhase::OpeningSession, CycleEvent::SessionOpened) => (
            CyclePhase::Crawling,
            CycleAction::RunSearch(CONCURRENT_LIMIT),
        ),
        (CyclePhase::OpeningSession, CycleEvent::SessionFailed(_)) => (
            CyclePhase::Idle,
            CycleAction::WaitForTick,
        ),
        (CyclePhase::Crawling, CycleEvent::SearchEnded(ScrapResult::Finished(items))) => (
            CyclePhase::Fetching,
            CycleAction::RunDetail(items),
        ),
        (CyclePhase::Crawling, CycleEvent::SearchEnded(ScrapResult::Skip)) => (
            CyclePhase::Closing,
            CycleAction::ReleaseSession,
        ),
        (CyclePhase::Crawling, CycleEvent::SearchFailed(_)) => (
            CyclePhase::Closing,
            CycleAction::ReleaseSession,
        ),
        (CyclePhase::Fetching, CycleEvent::DetailEnded) => (
            CyclePhase::Closing,
            CycleAction::ReleaseSession,
        ),
        (CyclePhase::Fetching, CycleEvent::DetailFailed(_)) => (
            CyclePhase::Closing,
            CycleAction::ReleaseSession,
        ),
        (CyclePhase::Closing, CycleEvent::SessionReleased) => (
            CyclePhase::Idle,
            CycleAction::WaitForTick,
        ),
        _ => (phase, CycleAction::Continue),
    }
}

/// The phase after a sequence of events.
pub open spec fn phase_after(phase: CyclePhase, events: Seq<CycleEvent>) -> CyclePhase
    decreases events.len(),
{
    if events.len() == 0 {
        phase
    } else {
        cycle_step(phase_after(phase, events.drop_last()), events.last()).0
    }
}

/// Cycles never overlap, and the stages keep their order: a session is opened
/// only on a tick between cycles, the search stage begins only in a session
/// just opened, the detail stage only after the search stage has ended with
/// items, and the session is released only after a stage.
pub proof fn lemma_cycle_order(phase: CyclePhase, event: CycleEvent)
    ensures
        cycle_step(phase, event).1 is OpenSession ==> phase == CyclePhase::Idle && event is Tick,
        cycle_step(phase, event).1 is RunSearch ==> phase == CyclePhase::OpeningSession,
        cycle_step(phase, event).1 is RunDetail ==> phase == CyclePhase::Crawling && (
        event matches CycleEvent::SearchEnded(ScrapResult::Finished(items))
            && cycle_step(phase, event).1 == CycleAction::RunDetail(items)),
        cycle_step(phase, event).1 is ReleaseSession ==> phase == CyclePhase::Crawling || phase
            == CyclePhase::Fetching,
        phase != CyclePhase::Idle && event is Tick ==> cycle_step(phase, event) == (
            phase,
            CycleAction::Continue,
        ),
{
}

/// No failure of a stage or of a session outlives its cycle: whatever fails,
/// the scheduler is between cycles again once the session, if one was opened,
/// is released, and the next tick begins a cycle.
pub proof fn lemma_failure_ends_only_the_cycle(error: ScrapeError)
    ensures
        cycle_step(CyclePhase::OpeningSession, CycleEvent::SessionFailed(error)).0
            == CyclePhase::Idle,
        phase_after(
            CyclePhase::Crawling,
            seq![CycleEvent::SearchFailed(error), CycleEvent::SessionReleased],
        ) == CyclePhase::Idle,
        phase_after(
            CyclePhase::Fetching,
            seq![CycleEvent::DetailFailed(error), CycleEvent::SessionReleased],
        ) == CyclePhase::Idle,
        cycle_step(CyclePhase::Idle, CycleEvent::Tick).1 is OpenSession,
{
    let a = seq![CycleEvent::SearchFailed(error), CycleEvent::SessionReleased];
    assert(a.drop_last() =~= seq![CycleEvent::SearchFailed(error)]);
    assert(a.drop_last().drop_last() =~= Seq::<CycleEvent>::empty());
    assert(phase_after(CyclePhase::Crawling, a.drop_last().drop_last()) == CyclePhase::Crawling);
    assert(phase_after(CyclePhase::Crawling, a.drop_last()) == CyclePhase::Closing);
    let b = seq![CycleEvent::DetailFailed(error), CycleEvent::SessionReleased];
    assert(b.drop_last() =~= seq![CycleEvent::DetailFailed(error)]);
    assert(b.drop_last().drop_last() =~= Seq::<CycleEvent>::empty());
    assert(phase_after(CyclePhase::Fetching, b.drop_last().drop_last()) == CyclePhase::Fetching);
    assert(phase_after(CyclePhase::Fetching, b.drop_last()) == CyclePhase::Closing);
}

/// The scheduler. It keeps nothing from one cycle to the next but where it
/// stands.
#[derive(Debug)]
pub struct Scheduler {
    pub phase: CyclePhase,
}

impl Scheduler {
    /// A scheduler between cycles.
    pub fn new() -> (r: Self)
        ensures
            r.phase == CyclePhase::Idle,
    {
        Scheduler { phase: CyclePhase::Idle }
    }

    /// Takes in what has happened and says what is to be done.
    pub fn step(&mut self, event: CycleEvent) -> (r: CycleAction)
        ensures
            (final(self).phase, r) == cycle_step(old(self).phase, event),
    {
        let (phase, action) = match (self.phase, event) {
            (CyclePhase::Idle, CycleEvent::Tick) => (
                CyclePhase::OpeningSession,
                CycleAction::OpenSession,
            ),
            (CyclePhase::OpeningSession, CycleEvent::SessionOpened) => (
                CyclePhase::Crawling,
                CycleAction::RunSearch(CONCURRENT_LIMIT),
            ),
            (CyclePhase::OpeningSession, CycleEvent::SessionFailed(_)) => (
                CyclePhase::Idle,
                CycleAction::WaitForTick,
            ),
            (CyclePhase::Crawling, CycleEvent::SearchEnded(ScrapResult::Finished(items))) => (
                CyclePhase::Fetching,
                CycleAction::RunDetail(items),
            ),
            (CyclePhase::Crawling, CycleEvent::SearchEnded(ScrapResult::Skip)) => (
                CyclePhase::Closing,
                CycleAction::ReleaseSession,
            ),
            (CyclePhase::Crawling, CycleEvent::SearchFailed(_)) => (
                CyclePhase::Closing,
                CycleAction::ReleaseSession,
            ),
            (CyclePhase::Fetching, CycleEvent::DetailEnded) => (
                CyclePhase::Closing,
                CycleAction::ReleaseSession,
            ),
            (CyclePhase::Fetching, CycleEvent::DetailFailed(_)) => (
                CyclePhase::Closing,
                CycleAction::ReleaseSession,
            ),
            (CyclePhase::Closing, CycleEvent::SessionReleased) => (
                CyclePhase::Idle,
                CycleAction::WaitForTick,
            ),
            (phase, _) => (phase, CycleAction::Continue),
        };
        self.phase = phase;
        action
    }
}

} // verus!
