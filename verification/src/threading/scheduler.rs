//! Scheduling jobs handed over from other threads.
//!
//! The pending jobs live in a [`SchedulerContext`], which the producers share;
//! the thread that owns the [`Scheduler`] takes them out, oldest first, and
//! runs them.
use std::collections::VecDeque;
use vstd::prelude::*;

verus! {

/// The consuming end: takes the pending jobs out of a context, one at a time.
pub struct Scheduler {}

/// The producing end: the jobs added and not yet taken, oldest first.
pub struct SchedulerContext<T> {
    tasks: VecDeque<T>,
}

impl<T> View for SchedulerContext<T> {
    type V = Seq<T>;

    closed spec fn view(&self) -> Seq<T> {
        self.tasks@
    }
}

impl<T> SchedulerContext<T> {
    /// Adds a job behind every job still pending.
    pub fn add(&mut self, task: T)
        ensures
            final(self)@ == old(self)@.push(task),
    {
        self.tasks.push_back(task);
    }

    /// Number of pending jobs.
    pub fn pending(&self) -> (n: usize)
        ensures
            n == self@.len(),
    {
        self.tasks.len()
    }
}

/// What one step of an update does to the pending jobs: hands out the oldest
/// job and leaves the rest, or finds none pending and leaves them as they are.
pub open spec fn next_step<T>(pending: Seq<T>) -> (Option<T>, Seq<T>) {
    if pending.len() == 0 {
        (None, pending)
    } else {
        (Some(pending[0]), pending.drop_first())
    }
}

/// The jobs that one whole update runs, in order, when `pending` is waiting
/// at its start, the `i`-th job it runs adds the jobs `added[i]` while it
/// runs, and any later job adds none: steps are taken until one finds no job
/// pending.
pub open spec fn update_run<T>(pending: Seq<T>, added: Seq<Seq<T>>) -> Seq<T>
    decreases added.len(),
{
    match next_step(pending).0 {
        None => Seq::empty(),
        Some(job) => if added.len() == 0 {
            pending
        } else {
            seq![job] + update_run(next_step(pending).1 + added[0], added.drop_first())
        },
    }
}

/// Whether the `i`-th job of an update exists for every `i` below
/// `added.len()`: jobs pending at the start and jobs added so far outnumber
/// the jobs run before it.
pub open spec fn jobs_keep_coming<T>(pending: Seq<T>, added: Seq<Seq<T>>) -> bool {
    forall|i: int|
        0 <= i < added.len() ==> i < pending.len() + (#[trigger] added.take(i)).flatten().len()
}

impl Scheduler {
    /// One step of an update: takes the oldest pending job out of `context`,
    /// or `None` where no job is pending. An update runs each job it is handed
    /// and asks again, so the jobs that running jobs add are run by the same
    /// update; it ends only when nothing is pending.
    pub fn update<T>(&mut self, context: &mut SchedulerContext<T>) -> (job: Option<T>)
        ensures
            (job, final(context)@) == next_step(old(context)@),
    {
        if context.tasks.len() == 0 {
            None
        } else {
            context.tasks.pop_front()
        }
    }
}

/// An update runs every job exactly once, in the order in which the jobs were
/// added: first those pending when it starts, then those that its jobs add
/// while they run, as long as each job it runs finds the next one waiting.
pub proof fn lemma_update_runs_every_job_in_order<T>(pending: Seq<T>, added: Seq<Seq<T>>)
    requires
        jobs_keep_coming(pending, added),
    ensures
        update_run(pending, added) == pending + added.flatten(),
    decreases added.len(),
{
    if added.len() == 0 {
        assert(added.flatten() =~= Seq::<T>::empty());
        assert(pending + added.flatten() =~= pending);
        if pending.len() == 0 {
            assert(update_run(pending, added) =~= Seq::<T>::empty());
        }
    } else {
        assert(added.take(0) =~= Seq::<Seq<T>>::empty());
        assert(added.take(0).flatten() =~= Seq::<T>::empty());
        assert(0 < pending.len() + added.take(0).flatten().len());
        let rest = pending.drop_first() + added[0];
        let later = added.drop_first();
        assert forall|i: int| 0 <= i < later.len() implies i < rest.len() + (
        #[trigger] later.take(i)).flatten().len() by {
            assert(added.take(i + 1).first() == added[0]);
            assert(added.take(i + 1).drop_first() =~= later.take(i));
            assert(added.take(i + 1).flatten() == added[0] + later.take(i).flatten());
            assert(i + 1 < pending.len() + (added.take(i + 1)).flatten().len());
        }
        lemma_update_runs_every_job_in_order(rest, later);
        assert(added.flatten() == added[0] + later.flatten());
        assert(update_run(pending, added) == seq![pending[0]] + update_run(rest, later));
        assert(seq![pending[0]] + (rest + later.flatten()) =~= pending + added.flatten());
    }
}

/// Creates a scheduler and the context that feeds it, with no job pending.
pub fn create_scheduler<T>() -> (pair: (Scheduler, SchedulerContext<T>))
    ensures
        pair.1@ == Seq::<T>::empty(),
{
    (Scheduler {}, SchedulerContext { tasks: VecDeque::new() })
}

} // verus!
