use notify_cleaner::notify::Notify;
use notify_cleaner::worker::{DeletionWorker, Target, WorkerAction};

fn targets(n: u64) -> Vec<Target> {
    (1..=n).map(|id| Target { id, record: Notify::new(0) }).collect()
}

#[test]
fn four_items_take_three_pauses() {
    let queue = targets(4);
    let mut w = DeletionWorker::new(queue.clone(), 2000);
    let mut actions = Vec::new();
    loop {
        let a = w.next(false);
        actions.push(a);
        if a == WorkerAction::AllDone {
            break;
        }
    }
    assert_eq!(
        actions,
        vec![
            WorkerAction::Delete(queue[0]),
            WorkerAction::Sleep(2000),
            WorkerAction::Delete(queue[1]),
            WorkerAction::Sleep(2000),
            WorkerAction::Delete(queue[2]),
            WorkerAction::Sleep(2000),
            WorkerAction::Delete(queue[3]),
            WorkerAction::AllDone,
        ]
    );
    let paused: u64 = actions
        .iter()
        .map(|a| match a {
            WorkerAction::Sleep(ms) => *ms,
            _ => 0,
        })
        .sum();
    assert_eq!(paused, 6000);
}

#[test]
fn cancel_after_the_second_of_five_leaves_three_alone() {
    let queue = targets(5);
    let mut w = DeletionWorker::new(queue.clone(), 10);
    let mut deleted = Vec::new();
    let mut cancelled = false;
    let last;
    loop {
        match w.next(cancelled) {
            WorkerAction::Delete(t) => {
                deleted.push(t.id);
                if deleted.len() == 2 {
                    cancelled = true;
                }
            }
            WorkerAction::Sleep(_) => {}
            end => {
                last = end;
                break;
            }
        }
    }
    assert_eq!(deleted, vec![1, 2]);
    assert_eq!(last, WorkerAction::Stopped);
    assert_eq!(w.done, 2);
    assert!(w.stopped);
}

#[test]
fn cancel_during_the_pause_stops_before_the_next_call() {
    let mut w = DeletionWorker::new(targets(3), 10);
    assert_eq!(w.next(false), WorkerAction::Delete(Target { id: 1, record: Notify::new(0) }));
    assert_eq!(w.next(false), WorkerAction::Sleep(10));
    assert_eq!(w.next(true), WorkerAction::Stopped);
    assert_eq!(w.done, 1);
}

#[test]
fn cancel_before_the_first_call_deletes_nothing() {
    let mut w = DeletionWorker::new(targets(3), 10);
    assert_eq!(w.next(true), WorkerAction::Stopped);
    assert_eq!(w.done, 0);
}

#[test]
fn a_stopped_run_stays_stopped() {
    let mut w = DeletionWorker::new(targets(3), 10);
    assert_eq!(w.next(true), WorkerAction::Stopped);
    assert_eq!(w.next(false), WorkerAction::Stopped);
    assert_eq!(w.next(false), WorkerAction::Stopped);
    assert_eq!(w.done, 0);
}

#[test]
fn an_empty_run_is_done_at_once() {
    let mut w = DeletionWorker::new(Vec::new(), 3000);
    assert_eq!(w.next(false), WorkerAction::AllDone);
    assert_eq!(w.next(false), WorkerAction::AllDone);
    let mut c = DeletionWorker::new(Vec::new(), 3000);
    assert_eq!(c.next(true), WorkerAction::Stopped);
}

#[test]
fn a_single_item_takes_no_pause() {
    let mut w = DeletionWorker::new(targets(1), 3000);
    assert_eq!(w.next(false), WorkerAction::Delete(Target { id: 1, record: Notify::new(0) }));
    assert_eq!(w.next(false), WorkerAction::AllDone);
}

#[test]
fn zero_delay_still_alternates() {
    let mut w = DeletionWorker::new(targets(2), 0);
    assert!(matches!(w.next(false), WorkerAction::Delete(_)));
    assert_eq!(w.next(false), WorkerAction::Sleep(0));
    assert!(matches!(w.next(false), WorkerAction::Delete(_)));
    assert_eq!(w.next(false), WorkerAction::AllDone);
}

#[test]
fn fresh_worker_has_dispatched_nothing() {
    let w = DeletionWorker::new(targets(2), 5);
    assert_eq!(w.done, 0);
    assert!(!w.rested);
    assert!(!w.stopped);
    assert_eq!(w.delay, 5);
    assert_eq!(w.queue, targets(2));
}
