use mcmeta::scheduler::cycle_must_stop;
use mcmeta::errors::{ErrorClass, FailureCause};
use mcmeta::models::Timestamp;
use mcmeta::scheduler::{
    process_results, process_results_ok, Failure, ItemState, Scheduler, Step,
};
use mcmeta::sync::{diff, find_local_time, pending, pending_updates, IdentityRecord, PendingUpdate};

fn record(id: &str, at: i128) -> IdentityRecord {
    IdentityRecord {
        id: id.to_string(),
        remote_timestamp: Timestamp { unix_nanos: at, offset_seconds: 0 },
        source_url: format!("https://example.invalid/{}.json", id),
    }
}

#[test]
fn with_nothing_local_everything_is_pending() {
    let remote = vec![record("1.20", 5), record("1.19", 3), record("b1.8", -7)];
    assert_eq!(diff(&remote, &vec![]), remote);
    assert_eq!(diff(&vec![], &vec![]), vec![]);
    assert_eq!(diff(&vec![], &remote), vec![]);
}

#[test]
fn stale_and_missing_ids_are_pending() {
    let remote = vec![record("a", 10), record("b", 10), record("c", 10), record("d", 10)];
    let local = vec![record("a", 10), record("b", 9), record("d", 11), record("e", 1)];
    let d = diff(&remote, &local);
    assert_eq!(d, vec![record("b", 10), record("c", 10)]);
    // The stale id is there exactly once.
    assert_eq!(d.iter().filter(|r| r.id == "b").count(), 1);
    assert!(!pending(&local, &remote[0]));
    assert!(pending(&local, &remote[1]));
    assert!(pending(&local, &remote[2]));
    assert!(!pending(&local, &remote[3]));
}

#[test]
fn staleness_goes_by_the_instant_alone() {
    let mut remote = record("a", 10);
    remote.source_url = "https://elsewhere.invalid/a.json".to_string();
    remote.remote_timestamp.offset_seconds = 7200;
    assert_eq!(diff(&vec![remote], &vec![record("a", 10)]), vec![]);
}

#[test]
fn the_last_local_record_of_an_id_counts() {
    let local = vec![record("a", 1), record("b", 5), record("a", 20)];
    assert_eq!(find_local_time(&local, "a"), Some(20));
    assert_eq!(find_local_time(&local, "b"), Some(5));
    assert_eq!(find_local_time(&local, "c"), None);
    assert_eq!(diff(&vec![record("a", 10)], &local), vec![]);
}

#[test]
fn updates_of_a_cycle() {
    let remote = vec![record("a", 10), record("b", 10), record("c", 10)];
    let local = vec![record("a", 10), record("b", 9)];
    assert_eq!(
        pending_updates(&remote, Some(&local)),
        vec![
            PendingUpdate { record: record("b", 10), force_update: true },
            PendingUpdate { record: record("c", 10), force_update: false },
        ]
    );
    assert_eq!(
        pending_updates(&remote, None),
        vec![
            PendingUpdate { record: record("a", 10), force_update: true },
            PendingUpdate { record: record("b", 10), force_update: true },
            PendingUpdate { record: record("c", 10), force_update: true },
        ]
    );
    assert_eq!(
        pending_updates(&remote, Some(&vec![])),
        vec![
            PendingUpdate { record: record("a", 10), force_update: false },
            PendingUpdate { record: record("b", 10), force_update: false },
            PendingUpdate { record: record("c", 10), force_update: false },
        ]
    );
}

#[test]
fn three_of_five_tasks_fail() {
    let mut s = Scheduler::new(5, 2).unwrap();
    let outcomes = [
        None,
        Some(FailureCause::Network),
        Some(FailureCause::Validation),
        None,
        Some(FailureCause::TaskFault),
    ];
    let mut flying: Vec<usize> = vec![];
    let mut dispatched = vec![];
    loop {
        match s.next_step() {
            Step::Dispatch(i) => {
                flying.push(i);
                dispatched.push(i);
                assert!(flying.len() <= 2);
                assert_eq!(s.in_flight(), flying.len());
            }
            Step::Wait => {
                let i = flying.remove(0);
                assert!(s.report(i, outcomes[i]));
            }
            Step::Finished => break,
        }
    }
    assert_eq!(dispatched, vec![0, 1, 2, 3, 4]);
    let r = s.aggregate();
    assert_eq!(r.succeeded, vec![0, 3]);
    assert_eq!(
        r.failures,
        vec![
            Failure { item: 1, cause: FailureCause::Network, class: ErrorClass::Transient },
            Failure { item: 2, cause: FailureCause::Validation, class: ErrorClass::DataError },
            Failure { item: 4, cause: FailureCause::TaskFault, class: ErrorClass::Fatal },
        ]
    );
    assert_eq!(r.not_run, Vec::<usize>::new());
}

#[test]
fn no_more_tasks_fly_than_allowed() {
    for limit in 1..5usize {
        let mut s = Scheduler::new(7, limit).unwrap();
        let mut flying = vec![];
        let mut most = 0;
        loop {
            match s.next_step() {
                Step::Dispatch(i) => flying.push(i),
                Step::Wait => {
                    assert_eq!(flying.len(), limit.min(flying.len()));
                    let i = flying.pop().unwrap();
                    assert!(s.report(i, None));
                }
                Step::Finished => break,
            }
            most = most.max(flying.len());
            assert_eq!(s.in_flight(), flying.len());
        }
        assert_eq!(most, limit);
        assert_eq!(s.aggregate().succeeded, vec![0, 1, 2, 3, 4, 5, 6]);
    }
}

#[test]
fn failure_of_storage_stops_the_dispatch() {
    let mut s = Scheduler::new(4, 2).unwrap();
    assert_eq!(s.next_step(), Step::Dispatch(0));
    assert_eq!(s.next_step(), Step::Dispatch(1));
    assert_eq!(s.next_step(), Step::Wait);
    assert!(s.report(0, Some(FailureCause::Storage)));
    // What is in flight may finish, nothing new starts.
    assert_eq!(s.next_step(), Step::Wait);
    assert!(s.report(1, None));
    assert_eq!(s.next_step(), Step::Finished);
    let r = s.aggregate();
    assert_eq!(r.succeeded, vec![1]);
    assert_eq!(
        r.failures,
        vec![Failure { item: 0, cause: FailureCause::Storage, class: ErrorClass::Fatal }]
    );
    assert_eq!(r.not_run, vec![2, 3]);
}

#[test]
fn a_task_that_broke_down_stops_nothing() {
    let mut s = Scheduler::new(2, 1).unwrap();
    assert_eq!(s.next_step(), Step::Dispatch(0));
    assert!(s.report(0, Some(FailureCause::TaskFault)));
    assert_eq!(s.next_step(), Step::Dispatch(1));
    assert!(s.report(1, None));
    assert_eq!(s.next_step(), Step::Finished);
    assert_eq!(s.aggregate().succeeded, vec![1]);
}

#[test]
fn reports_are_taken_only_for_items_in_flight() {
    let mut s = Scheduler::new(2, 1).unwrap();
    assert!(!s.report(0, None));
    assert!(!s.report(5, None));
    assert_eq!(s.state_of(0), Some(ItemState::Waiting));
    assert_eq!(s.state_of(2), None);
    assert_eq!(s.next_step(), Step::Dispatch(0));
    assert_eq!(s.state_of(0), Some(ItemState::InFlight));
    assert!(!s.report(1, None));
    assert!(s.report(0, None));
    assert!(!s.report(0, Some(FailureCause::Network)));
    assert_eq!(s.state_of(0), Some(ItemState::Succeeded));
    assert_eq!(s.total(), 2);
}

#[test]
fn scheduler_edge_cases() {
    assert!(Scheduler::new(3, 0).is_none());
    let mut s = Scheduler::new(0, 3).unwrap();
    assert_eq!(s.next_step(), Step::Finished);
    let r = s.aggregate();
    assert!(r.succeeded.is_empty() && r.failures.is_empty() && r.not_run.is_empty());
}

#[test]
fn results_are_sorted_without_loss() {
    let results: Vec<Result<&str, FailureCause>> = vec![
        Ok("a"),
        Err(FailureCause::Timeout),
        Ok("b"),
        Err(FailureCause::Storage),
        Err(FailureCause::PatternMismatch),
    ];
    let r = process_results(results.clone());
    assert_eq!(r.succeeded, vec!["a", "b"]);
    assert_eq!(
        r.failures,
        vec![
            Failure { item: 1, cause: FailureCause::Timeout, class: ErrorClass::Transient },
            Failure { item: 3, cause: FailureCause::Storage, class: ErrorClass::Fatal },
            Failure { item: 4, cause: FailureCause::PatternMismatch, class: ErrorClass::DataError },
        ]
    );
    assert_eq!(process_results_ok(results), vec!["a", "b"]);
    assert_eq!(process_results_ok(Vec::<Result<u8, FailureCause>>::new()), vec![]);
}

#[test]
fn only_a_failure_of_storage_stops_the_cycle() {
    let failure = |cause| Failure { item: 0, cause, class: mcmeta::errors::classify(cause) };
    assert!(!cycle_must_stop(&vec![]));
    assert!(!cycle_must_stop(&vec![
        failure(FailureCause::Network),
        failure(FailureCause::Validation),
        failure(FailureCause::TaskFault),
    ]));
    assert!(cycle_must_stop(&vec![failure(FailureCause::Timeout), failure(FailureCause::Storage)]));
}
