use vstd::prelude::*;

verus! {

/// What the dancer asks its driver to do next.
#[derive(Debug, Clone, Copy, PartialEq, Eq, Structural)]
pub enum ProducerAction {
    /// Pause for one unit of work, store this value in the shared counter,
    /// then yield to the scheduler.
    Publish(u64),
    /// Every step is done; the task ends.
    Finished,
}

/// The dancer: advances a shared counter once per step, from 1 up to its bound.
#[derive(Debug, Clone, Copy, PartialEq, Eq, Structural)]
pub struct Producer {
    bound: u64,
    published: u64,
}

impl Producer {
    /// The number of steps the dancer takes in all.
    pub closed spec fn spec_bound(&self) -> nat {
        self.bound as nat
    }

    /// The number of steps published so far; also the last value written to
    /// the counter (zero before the first step).
    pub closed spec fn spec_published(&self) -> nat {
        self.published as nat
    }

    pub open spec fn wf(&self) -> bool {
        self.spec_published() <= self.spec_bound() <= u64::MAX
    }

    pub open spec fn spec_is_finished(&self) -> bool {
        self.spec_published() == self.spec_bound()
    }

    /// A dancer that has taken none of its `bound` steps.
    pub fn new(bound: u64) -> (r: Producer)
        ensures
            r.wf(),
            r.spec_bound() == bound,
            r.spec_published() == 0,
    {
        Producer { bound, published: 0 }
    }

    pub fn bound(&self) -> (r: u64)
        ensures
            r == self.spec_bound(),
    {
        self.bound
    }

    pub fn published(&self) -> (r: u64)
        ensures
            r == self.spec_published(),
    {
        self.published
    }

    pub fn is_finished(&self) -> (r: bool)
        requires
            self.wf(),
        ensures
            r == self.spec_is_finished(),
    {
        self.published == self.bound
    }

    /// Takes the next step: publishes the next value of the counter, one more
    /// than the last, or reports that the bound has been reached.
    pub fn step(&mut self) -> (r: ProducerAction)
        requires
            old(self).wf(),
        ensures
            final(self).wf(),
            final(self).spec_bound() == old(self).spec_bound(),
            old(self).spec_is_finished() ==> r == ProducerAction::Finished && *final(self)
                == *old(self),
            !old(self).spec_is_finished() ==> r == ProducerAction::Publish(
                (old(self).spec_published() + 1) as u64,
            ) && final(self).spec_published() == old(self).spec_published() + 1,
    {
        if self.published == self.bound {
            ProducerAction::Finished
        } else {
            self.published = self.published + 1;
            ProducerAction::Publish(self.published)
        }
    }
}

} // verus!
