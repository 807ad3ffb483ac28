//! Task locks that keep two ticks of one periodic task from overlapping.

use vstd::prelude::*;

verus! {

/// The periodic tasks of the logger.
#[derive(Clone, Copy, PartialEq, Eq, Structural, Debug, Hash, PartialOrd, Ord)]
pub enum TaskType {
    ScrapeEvents,
    RemoveUnverifiedTx,
}

/// The set of tasks that currently hold their lock; each kind is in it at most once.
#[derive(Clone, Copy, Debug, PartialEq, Eq, Structural)]
pub struct TaskSet {
    scrape_events: bool,
    remove_unverified_tx: bool,
}

impl View for TaskSet {
    type V = Set<TaskType>;

    closed spec fn view(&self) -> Set<TaskType> {
        Set::new(
            |t: TaskType|
                match t {
                    TaskType::ScrapeEvents => self.scrape_events,
                    TaskType::RemoveUnverifiedTx => self.remove_unverified_tx,
                },
        )
    }
}

impl TaskSet {
    /// No task holds its lock.
    pub fn new() -> (r: TaskSet)
        ensures
            r@ == Set::<TaskType>::empty(),
    {
        let r = TaskSet { scrape_events: false, remove_unverified_tx: false };
        assert(r@ =~= Set::<TaskType>::empty());
        r
    }

    /// Whether `t` holds its lock.
    pub fn contains(&self, t: TaskType) -> (r: bool)
        ensures
            r == self@.contains(t),
    {
        match t {
            TaskType::ScrapeEvents => self.scrape_events,
            TaskType::RemoveUnverifiedTx => self.remove_unverified_tx,
        }
    }

    /// Takes the lock of `t` if it is free; returns whether it was taken.
    pub fn try_acquire(&mut self, t: TaskType) -> (r: bool)
        ensures
            r == !old(self)@.contains(t),
            final(self)@ == old(self)@.insert(t),
    {
        let held = self.contains(t);
        match t {
            TaskType::ScrapeEvents => self.scrape_events = true,
            TaskType::RemoveUnverifiedTx => self.remove_unverified_tx = true,
        }
        assert(self@ =~= old(self)@.insert(t));
        !held
    }

    /// Releases the lock of `t`.
    pub fn release(&mut self, t: TaskType)
        ensures
            final(self)@ == old(self)@.remove(t),
    {
        match t {
            TaskType::ScrapeEvents => self.scrape_events = false,
            TaskType::RemoveUnverifiedTx => self.remove_unverified_tx = false,
        }
        assert(self@ =~= old(self)@.remove(t));
    }
}

} // verus!
