//! Deleting a chosen run of records, one call at a time.
//!
//! A [`DeletionWorker`] decides what happens next: a deletion call, the pause
//! between two calls, or the end. The caller asks it before every move, telling
//! it whether cancellation was signalled, carries the move out, and asks again.
//! A call is never started while another is under way, and a call that was
//! started is never cut short.

use crate::notify::Notify;
use vstd::prelude::*;

verus! {

/// A record together with the id under which the collection holds it.
#[derive(Clone, Copy, Debug, PartialEq, Eq, Structural)]
pub struct Target {
    pub id: u64,
    pub record: Notify,
}

/// What the caller is to do next.
#[derive(Clone, Copy, Debug, PartialEq, Eq, Structural)]
pub enum WorkerAction {
    /// Make the deletion call for this record and wait for its outcome.
    Delete(Target),
    /// Wait this many milliseconds.
    Sleep(u64),
    /// Every record was dispatched; report the end.
    AllDone,
    /// Cancellation was signalled; report the end.
    Stopped,
}

/// The state of a deletion run.
#[derive(Clone, Debug, PartialEq, Eq)]
pub struct DeletionWorker {
    /// The records to delete, in the order of their dispatch.
    pub queue: Vec<Target>,
    /// How many of them were dispatched.
    pub done: usize,
    /// Whether the pause after the latest dispatch was taken.
    pub rested: bool,
    /// The pause between two calls, in milliseconds.
    pub delay: u64,
    /// Whether the run was cancelled.
    pub stopped: bool,
}

/// The model of a [`DeletionWorker`].
pub struct WorkerModel {
    pub queue: Seq<Target>,
    pub done: nat,
    pub rested: bool,
    pub delay: u64,
    pub stopped: bool,
}

impl View for DeletionWorker {
    type V = WorkerModel;

    open spec fn view(&self) -> WorkerModel {
        WorkerModel {
            queue: self.queue@,
            done: self.done as nat,
            rested: self.rested,
            delay: self.delay,
            stopped: self.stopped,
        }
    }
}

/// The state in which a run starts.
pub open spec fn fresh(queue: Seq<Target>, delay: u64) -> WorkerModel {
    WorkerModel { queue, done: 0, rested: false, delay, stopped: false }
}

/// The move that a run makes when asked, `cancelled` telling whether
/// cancellation was signalled. A cancelled run stops, now and ever after. A run
/// with nothing left is done. Else the run pauses if a call was made and the
/// pause after it is still owed, and dispatches the next record if not.
pub open spec fn action_of(worker: WorkerModel, cancelled: bool) -> WorkerAction {
    if worker.stopped || cancelled {
        WorkerAction::Stopped
    } else if worker.done >= worker.queue.len() {
        WorkerAction::AllDone
    } else if worker.done > 0 && !worker.rested {
        WorkerAction::Sleep(worker.delay)
    } else {
        WorkerAction::Delete(worker.queue[worker.done as int])
    }
}

/// The state of a run after it was asked.
pub open spec fn state_after(worker: WorkerModel, cancelled: bool) -> WorkerModel {
    match action_of(worker, cancelled) {
        WorkerAction::Stopped => WorkerModel { stopped: true, ..worker },
        WorkerAction::AllDone => worker,
        WorkerAction::Sleep(_) => WorkerModel { rested: true, ..worker },
        WorkerAction::Delete(_) => WorkerModel { done: worker.done + 1, rested: false, ..worker },
    }
}

/// The state of a run after it was asked once for each entry of `signals`, in
/// order, the entry telling whether cancellation was signalled by then.
pub open spec fn state_after_all(worker: WorkerModel, signals: Seq<bool>) -> WorkerModel
    decreases signals.len(),
{
    if signals.len() == 0 {
        worker
    } else {
        state_after(state_after_all(worker, signals.drop_last()), signals.last())
    }
}

/// The move that a run makes when it is asked for the last entry of `signals`,
/// having been asked for those before it.
pub open spec fn last_action(worker: WorkerModel, signals: Seq<bool>) -> WorkerAction
    recommends
        signals.len() > 0,
{
    action_of(state_after_all(worker, signals.drop_last()), signals.last())
}

/// Once cancellation was signalled to a run, it makes no call any more: the
/// answer to that question and to every later one is [`WorkerAction::Stopped`],
/// whatever the later questions signal.
pub proof fn lemma_cancel_stops(worker: WorkerModel, signals: Seq<bool>, at: int)
    requires
        0 <= at < signals.len(),
        signals[at],
    ensures
        last_action(worker, signals) == WorkerAction::Stopped,
        state_after_all(worker, signals).stopped,
        state_after_all(worker, signals).done == state_after_all(worker, signals.take(at)).done,
    decreases signals.len(),
{
    if at == signals.len() - 1 {
        assert(signals.drop_last() =~= signals.take(at));
    } else {
        lemma_cancel_stops(worker, signals.drop_last(), at);
        assert(signals.drop_last().take(at) =~= signals.take(at));
    }
}

/// The state of an undisturbed run over `queue` after `asked` questions.
pub open spec fn undisturbed(queue: Seq<Target>, delay: u64, asked: nat) -> WorkerModel {
    WorkerModel {
        queue,
        done: if (asked + 1) / 2 <= queue.len() {
            (asked + 1) / 2
        } else {
            queue.len()
        },
        rested: 0 < asked && asked % 2 == 0 && asked + 1 < 2 * queue.len(),
        delay,
        stopped: false,
    }
}

/// An undisturbed run dispatches the records in the order of the queue and
/// pauses between every two of them, and nowhere else. Of the moves of a run
/// over `n` records that is never cancelled, those at the even places up to
/// `2n - 2` are the `n` deletions, in order; those at the odd places between
/// them are the `n - 1` pauses, each of the delay that was set; every later
/// move is [`WorkerAction::AllDone`].
pub proof fn lemma_undisturbed_run(queue: Seq<Target>, delay: u64, signals: Seq<bool>)
    requires
        forall|i: int| 0 <= i < signals.len() ==> !signals[i],
    ensures
        state_after_all(fresh(queue, delay), signals) == undisturbed(queue, delay, signals.len()),
        signals.len() > 0 ==> last_action(fresh(queue, delay), signals) == ({
            let place = signals.len() - 1;
            if place + 1 >= 2 * queue.len() {
                WorkerAction::AllDone
            } else if place % 2 == 0 {
                WorkerAction::Delete(queue[place / 2])
            } else {
                WorkerAction::Sleep(delay)
            }
        }),
    decreases signals.len(),
{
    if signals.len() > 0 {
        lemma_undisturbed_run(queue, delay, signals.drop_last());
    }
}

impl DeletionWorker {
    /// A run over `queue` that pauses `delay` milliseconds between two calls.
    pub fn new(queue: Vec<Target>, delay: u64) -> (r: DeletionWorker)
        ensures
            r@ == fresh(queue@, delay),
    {
        DeletionWorker { queue, done: 0, rested: false, delay, stopped: false }
    }

    /// Decides the next move, `cancelled` telling whether cancellation was
    /// signalled, and takes note of it.
    pub fn next(&mut self, cancelled: bool) -> (r: WorkerAction)
        ensures
            r == action_of(old(self)@, cancelled),
            final(self)@ == state_after(old(self)@, cancelled),
    {
        if self.stopped || cancelled {
            self.stopped = true;
            WorkerAction::Stopped
        } else if self.done >= self.queue.len() {
            WorkerAction::AllDone
        } else if self.done > 0 && !self.rested {
            self.rested = true;
            WorkerAction::Sleep(self.delay)
        } else {
            let target = self.queue[self.done];
            self.done = self.done + 1;
            self.rested = false;
            WorkerAction::Delete(target)
        }
    }
}

} // verus!
