use price_tracker::error::{ErrorKind, ScrapeError};
use price_tracker::models::page::PageHandler;
use price_tracker::models::store::StoreId;
use price_tracker::scheduler::{
    CycleAction, CycleEvent, CyclePhase, Scheduler, CONCURRENT_LIMIT, INTERVAL_SECS,
};
use price_tracker::scraper::{QueuePage, ScrapResult};
use price_tracker::web_url::WebUrl;

fn item(url: &str) -> QueuePage {
    QueuePage {
        url: WebUrl::parse(url).unwrap(),
        store_id: StoreId(1),
        handler: PageHandler::KabumProduct,
        ean: None,
        gtin: None,
    }
}

fn boom() -> ScrapeError {
    ScrapeError::new(ErrorKind::Render, "boom")
}

#[test]
fn scheduler_constants() {
    assert_eq!(INTERVAL_SECS, 86400);
    assert_eq!(CONCURRENT_LIMIT, 2);
}

#[test]
fn a_cycle_runs_search_then_detail_then_releases() {
    let mut s = Scheduler::new();
    assert_eq!(s.phase, CyclePhase::Idle);
    assert!(matches!(s.step(CycleEvent::Tick), CycleAction::OpenSession));
    assert_eq!(s.phase, CyclePhase::OpeningSession);
    assert!(matches!(s.step(CycleEvent::SessionOpened), CycleAction::RunSearch(2)));
    assert_eq!(s.phase, CyclePhase::Crawling);
    let found = vec![item("https://e.com/produto/1/a"), item("https://e.com/produto/2/b")];
    match s.step(CycleEvent::SearchEnded(ScrapResult::Finished(found))) {
        CycleAction::RunDetail(items) => {
            let urls: Vec<&str> = items.iter().map(|q| q.url.as_str()).collect();
            assert_eq!(urls, vec!["https://e.com/produto/1/a", "https://e.com/produto/2/b"]);
        }
        other => panic!("{:?}", other),
    }
    assert_eq!(s.phase, CyclePhase::Fetching);
    assert!(matches!(s.step(CycleEvent::DetailEnded), CycleAction::ReleaseSession));
    assert_eq!(s.phase, CyclePhase::Closing);
    assert!(matches!(s.step(CycleEvent::SessionReleased), CycleAction::WaitForTick));
    assert_eq!(s.phase, CyclePhase::Idle);
    assert!(matches!(s.step(CycleEvent::Tick), CycleAction::OpenSession));
}

#[test]
fn a_skipped_search_ends_the_cycle_without_detail() {
    let mut s = Scheduler { phase: CyclePhase::Crawling };
    assert!(matches!(
        s.step(CycleEvent::SearchEnded(ScrapResult::Skip)),
        CycleAction::ReleaseSession
    ));
    assert_eq!(s.phase, CyclePhase::Closing);
}

#[test]
fn a_failed_stage_ends_only_its_cycle() {
    let mut s = Scheduler { phase: CyclePhase::Crawling };
    assert!(matches!(s.step(CycleEvent::SearchFailed(boom())), CycleAction::ReleaseSession));
    assert!(matches!(s.step(CycleEvent::SessionReleased), CycleAction::WaitForTick));
    assert_eq!(s.phase, CyclePhase::Idle);
    let mut s = Scheduler { phase: CyclePhase::Fetching };
    assert!(matches!(s.step(CycleEvent::DetailFailed(boom())), CycleAction::ReleaseSession));
    assert!(matches!(s.step(CycleEvent::SessionReleased), CycleAction::WaitForTick));
    assert!(matches!(s.step(CycleEvent::Tick), CycleAction::OpenSession));
}

#[test]
fn a_cycle_without_session_waits_for_the_next_tick() {
    let mut s = Scheduler { phase: CyclePhase::OpeningSession };
    assert!(matches!(s.step(CycleEvent::SessionFailed(boom())), CycleAction::WaitForTick));
    assert_eq!(s.phase, CyclePhase::Idle);
    assert!(matches!(s.step(CycleEvent::Tick), CycleAction::OpenSession));
}

#[test]
fn a_tick_during_a_cycle_starts_nothing() {
    for phase in [
        CyclePhase::OpeningSession,
        CyclePhase::Crawling,
        CyclePhase::Fetching,
        CyclePhase::Closing,
    ] {
        let mut s = Scheduler { phase };
        assert!(matches!(s.step(CycleEvent::Tick), CycleAction::Continue));
        assert_eq!(s.phase, phase);
    }
}

#[test]
fn an_event_that_does_not_fit_changes_nothing() {
    let mut s = Scheduler::new();
    assert!(matches!(s.step(CycleEvent::DetailEnded), CycleAction::Continue));
    assert!(matches!(s.step(CycleEvent::SessionReleased), CycleAction::Continue));
    assert!(matches!(
        s.step(CycleEvent::SearchEnded(ScrapResult::Finished(vec![]))),
        CycleAction::Continue
    ));
    assert_eq!(s.phase, CyclePhase::Idle);
    let mut s = Scheduler { phase: CyclePhase::Crawling };
    assert!(matches!(s.step(CycleEvent::DetailEnded), CycleAction::Continue));
    assert!(matches!(s.step(CycleEvent::SessionOpened), CycleAction::Continue));
    assert_eq!(s.phase, CyclePhase::Crawling);
}
