use price_tracker::pool::{Dispatch, StageRun, UnitState, WorkerPool};

#[test]
fn pool_hands_out_no_more_than_its_permits() {
    let mut pool = WorkerPool::new(2);
    assert_eq!((pool.capacity(), pool.in_use(), pool.available()), (2, 0, 2));
    assert!(pool.try_acquire());
    assert!(pool.try_acquire());
    assert!(!pool.try_acquire());
    assert_eq!((pool.in_use(), pool.available()), (2, 0));
    assert!(pool.release());
    assert_eq!((pool.in_use(), pool.available()), (1, 1));
    assert!(pool.try_acquire());
    assert!(pool.release());
    assert!(pool.release());
    assert!(!pool.release());
    assert_eq!(pool.in_use(), 0);
}

#[test]
fn pool_without_permits_never_grants() {
    let mut pool = WorkerPool::new(0);
    assert!(!pool.try_acquire());
    assert!(!pool.release());
}

#[test]
fn run_with_no_units_is_done() {
    let mut run = StageRun::new(0, 2, 0);
    assert_eq!(run.total(), 0);
    assert!(run.is_done());
    assert_eq!(run.poll(0), Dispatch::Done);
}

#[test]
fn run_starts_in_order_up_to_the_permits() {
    let mut run = StageRun::new(3, 2, 0);
    assert!(!run.is_done());
    assert_eq!(run.poll(0), Dispatch::Start(0));
    assert_eq!(run.poll(0), Dispatch::Start(1));
    assert_eq!(run.in_flight(), 2);
    assert_eq!(run.poll(0), Dispatch::WaitForCompletion);
    assert_eq!(run.in_flight(), 2);
    assert_eq!(run.state(0), Some(UnitState::Running));
    assert_eq!(run.state(2), Some(UnitState::Waiting));
    assert_eq!(run.state(3), None);
    assert!(run.complete(0));
    assert_eq!(run.state(0), Some(UnitState::Finished));
    assert_eq!(run.in_flight(), 1);
    assert_eq!(run.poll(0), Dispatch::Start(2));
    assert_eq!(run.poll(0), Dispatch::WaitForCompletion);
    assert!(run.complete(2));
    assert_eq!(run.poll(0), Dispatch::WaitForCompletion);
    assert!(!run.is_done());
    assert!(run.complete(1));
    assert!(run.is_done());
    assert_eq!(run.poll(0), Dispatch::Done);
}

#[test]
fn run_ignores_reports_for_units_that_do_not_run() {
    let mut run = StageRun::new(2, 1, 0);
    assert!(!run.complete(0));
    assert!(!run.complete(5));
    assert_eq!(run.poll(0), Dispatch::Start(0));
    assert!(!run.complete(1));
    assert!(run.complete(0));
    assert!(!run.complete(0));
    assert_eq!(run.in_flight(), 0);
}

#[test]
fn run_never_exceeds_its_permits_on_any_interleaving() {
    for permits in 0..4usize {
        let mut run = StageRun::new(7, permits, 0);
        let mut running: Vec<usize> = Vec::new();
        let mut seed: u64 = 12345 + permits as u64;
        for _ in 0..200 {
            seed = seed.wrapping_mul(6364136223846793005).wrapping_add(1442695040888963407);
            if (seed >> 33) % 3 == 0 && !running.is_empty() {
                let at = ((seed >> 40) as usize) % running.len();
                let unit = running.remove(at);
                assert!(run.complete(unit));
            } else {
                match run.poll(0) {
                    Dispatch::Start(i) => running.push(i),
                    Dispatch::WaitForCompletion => {
                        assert!(running.len() == permits || run.state(6) != Some(UnitState::Waiting))
                    }
                    Dispatch::Done => assert!(running.is_empty()),
                    Dispatch::WaitUntil(_) => panic!("no delay was asked for"),
                }
            }
            assert_eq!(run.in_flight(), running.len());
            assert!(run.in_flight() <= permits);
        }
    }
}

#[test]
fn run_keeps_the_delay_between_starts() {
    let mut run = StageRun::new(3, 10, 300);
    assert_eq!(run.poll(1000), Dispatch::Start(0));
    assert_eq!(run.poll(1000), Dispatch::WaitUntil(1300));
    assert_eq!(run.poll(1299), Dispatch::WaitUntil(1300));
    assert_eq!(run.poll(1300), Dispatch::Start(1));
    assert_eq!(run.poll(900), Dispatch::WaitUntil(1600));
    assert_eq!(run.poll(5000), Dispatch::Start(2));
    assert_eq!(run.poll(5000), Dispatch::WaitForCompletion);
}

#[test]
fn run_delay_comes_before_the_permit() {
    let mut run = StageRun::new(2, 1, 300);
    assert_eq!(run.poll(0), Dispatch::Start(0));
    assert_eq!(run.poll(100), Dispatch::WaitUntil(300));
    assert_eq!(run.poll(300), Dispatch::WaitForCompletion);
    assert!(run.complete(0));
    assert_eq!(run.poll(300), Dispatch::Start(1));
}

#[test]
fn run_delay_saturates() {
    let mut run = StageRun::new(2, 2, u64::MAX);
    assert_eq!(run.poll(5), Dispatch::Start(0));
    assert_eq!(run.poll(u64::MAX), Dispatch::WaitUntil(u64::MAX));
}
