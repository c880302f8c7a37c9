//! The worker's decision logic: one job at a time off the shared queue,
//! each run through the driver's setup phase and then — only on success —
//! its run phase. A failed job never stops the worker; only a closed
//! queue does. The surrounding process owns the queue and the threads and
//! feeds each worker its queue events.

use vstd::prelude::*;
use crate::ci::{CI, CIJob};
use crate::errors::ErrorKind;

verus! {

/// What one receive on the job queue yields.
#[derive(Debug)]
pub enum QueueEvent {
    /// A job to run.
    Job(CIJob),
    /// The queue was closed: no job will ever arrive again.
    Closed,
}

/// A single consumer of the job queue, with its own driver instance.
pub struct Worker<T: CI> {
    pub id: usize,
    pub ci: T,
}

impl<T: CI> Worker<T> {
    pub fn new(id: usize, ci: T) -> (w: Worker<T>)
        ensures
            w.id == id,
    {
        Worker { id, ci }
    }

    /// Run one job: the driver's setup phase first, and its run phase only
    /// when setup succeeded — so a setup failure ends the job before any
    /// run step, with setup's error as the job's result.
    pub fn process(&mut self, job: CIJob) -> (r: Result<(), ErrorKind>)
        ensures
            final(self).id == old(self).id,
    {
        let project_id = job.project_id.clone();
        match self.ci.setup(job) {
            Ok(()) => self.ci.run_pipeline(&project_id),
            Err(e) => Err(e),
        }
    }

    /// One turn of the worker's loop: run the job if one arrived, and say
    /// whether to keep going. The worker continues after every job —
    /// failed or not — and stops exactly when the queue is closed.
    pub fn handle(&mut self, event: QueueEvent) -> (cont: bool)
        ensures
            final(self).id == old(self).id,
            cont == (event matches QueueEvent::Job(_)),
    {
        match event {
            QueueEvent::Job(job) => {
                let _ = self.process(job);
                true
            },
            QueueEvent::Closed => false,
        }
    }
}

} // verus!
