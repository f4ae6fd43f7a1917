use seed_trials::scheduler::{
    concurrency_limit, RunProgress, Scheduler, SchedulerAction, DEFAULT_CHUNK_SIZE,
};
use seed_trials::seed::SeedIterator;
use seed_trials::trial::Verdict;

#[test]
fn the_default_limit_is_ten() {
    assert_eq!(DEFAULT_CHUNK_SIZE, 10);
    assert_eq!(concurrency_limit(None), 10);
    assert_eq!(concurrency_limit(Some(3)), 3);
    assert_eq!(concurrency_limit(Some(0)), 0);
}

#[test]
fn a_list_is_run_to_the_end_within_the_limit() {
    let mut scheduler = Scheduler::new(SeedIterator::new(Some(vec![1, 2, 3])), 2);
    assert_eq!(scheduler.limit(), 2);
    assert_eq!(scheduler.next_action(), SchedulerAction::Dispatch(3));
    assert_eq!(scheduler.next_action(), SchedulerAction::Dispatch(2));
    assert_eq!(scheduler.in_flight(), 2);
    assert_eq!(scheduler.next_action(), SchedulerAction::AwaitCompletion);
    assert_eq!(scheduler.next_action(), SchedulerAction::AwaitCompletion);
    assert!(scheduler.complete(Verdict::Continue));
    assert_eq!(
        scheduler.progress(),
        RunProgress { dispatched: 2, completed: 1, total: Some(3) }
    );
    assert_eq!(scheduler.next_action(), SchedulerAction::Dispatch(1));
    assert_eq!(scheduler.next_action(), SchedulerAction::AwaitCompletion);
    assert!(scheduler.complete(Verdict::Continue));
    assert_eq!(scheduler.next_action(), SchedulerAction::AwaitCompletion);
    assert!(scheduler.complete(Verdict::Continue));
    assert_eq!(scheduler.next_action(), SchedulerAction::Finished);
    assert_eq!(scheduler.next_action(), SchedulerAction::Finished);
    assert_eq!(
        scheduler.progress(),
        RunProgress { dispatched: 3, completed: 3, total: Some(3) }
    );
}

#[test]
fn never_more_in_flight_than_the_limit() {
    for limit in 1..6 {
        let seeds: Vec<u32> = (0..17).collect();
        let mut scheduler = Scheduler::new(SeedIterator::new(Some(seeds)), limit);
        let mut started = 0;
        let mut ended = 0;
        loop {
            match scheduler.next_action() {
                SchedulerAction::Dispatch(_) => started += 1,
                SchedulerAction::AwaitCompletion => {
                    assert!(scheduler.in_flight() > 0);
                    assert!(scheduler.complete(Verdict::Continue));
                    ended += 1;
                }
                SchedulerAction::Finished => break,
                SchedulerAction::Abort => panic!("no trial asked for the end of the run"),
            }
            assert!(scheduler.in_flight() <= limit);
            assert_eq!(scheduler.in_flight(), started - ended);
        }
        assert_eq!(started, 17);
        assert_eq!(ended, 17);
        assert_eq!(scheduler.progress().completed, 17);
    }
}

#[test]
fn a_completion_with_nothing_in_flight_counts_nothing() {
    let mut scheduler = Scheduler::new(SeedIterator::new(Some(vec![])), 4);
    assert!(!scheduler.complete(Verdict::Abort));
    assert_eq!(scheduler.progress(), RunProgress { dispatched: 0, completed: 0, total: Some(0) });
    assert_eq!(scheduler.next_action(), SchedulerAction::Finished);
}

#[test]
fn an_abort_ends_the_run_at_once() {
    let mut scheduler = Scheduler::new(SeedIterator::new(Some(vec![1, 2, 3])), 2);
    assert_eq!(scheduler.next_action(), SchedulerAction::Dispatch(3));
    assert_eq!(scheduler.next_action(), SchedulerAction::Dispatch(2));
    assert!(scheduler.complete(Verdict::Abort));
    assert_eq!(scheduler.next_action(), SchedulerAction::Abort);
    assert_eq!(scheduler.in_flight(), 1);
    assert!(scheduler.complete(Verdict::Continue));
    assert_eq!(scheduler.next_action(), SchedulerAction::Abort);
    assert_eq!(scheduler.progress(), RunProgress { dispatched: 2, completed: 2, total: Some(3) });
}

#[test]
fn a_capped_random_run_has_a_total() {
    let mut scheduler = Scheduler::new(SeedIterator::new(None).take(3), 10);
    assert_eq!(scheduler.progress().total, Some(3));
    for _ in 0..3 {
        assert!(matches!(scheduler.next_action(), SchedulerAction::Dispatch(_)));
    }
    assert_eq!(scheduler.next_action(), SchedulerAction::AwaitCompletion);
    assert_eq!(scheduler.progress().label(), "0/3");
}

#[test]
fn an_endless_run_has_no_total() {
    let mut scheduler = Scheduler::new(SeedIterator::new(None), 1);
    assert_eq!(scheduler.progress().total, None);
    for round in 1..50 {
        assert!(matches!(scheduler.next_action(), SchedulerAction::Dispatch(_)));
        assert_eq!(scheduler.next_action(), SchedulerAction::AwaitCompletion);
        assert!(scheduler.complete(Verdict::Continue));
        assert_eq!(scheduler.progress().completed, round);
    }
    assert_eq!(scheduler.progress().label(), "49/\u{221e}");
}

#[test]
fn progress_is_shown_as_ended_over_total() {
    let progress = RunProgress { dispatched: 7, completed: 5, total: Some(12) };
    assert_eq!(progress.label(), "5/12");
    let endless = RunProgress { dispatched: 7, completed: 0, total: None };
    assert_eq!(endless.label(), "0/\u{221e}");
}
