//! Bounded download concurrency: which submitted job starts at once, which waits, and which
//! starts when a running one finishes.

use vstd::prelude::*;

use std::collections::VecDeque;

verus! {

/// Jobs waiting for one of at most `max` running slots, oldest first.
pub struct JobQueue<T> {
    max: usize,
    active: usize,
    pending: VecDeque<T>,
}

impl<T> JobQueue<T> {
    /// At least one slot, and never more jobs running than slots.
    #[verifier::type_invariant]
    spec fn slots_respected(self) -> bool {
        1 <= self.max && self.active <= self.max
    }

    /// How many jobs may run at once.
    pub closed spec fn slots(self) -> nat {
        self.max as nat
    }

    /// How many jobs are running.
    pub closed spec fn running(self) -> nat {
        self.active as nat
    }

    /// The jobs waiting, oldest first.
    pub closed spec fn waiting(self) -> Seq<T> {
        self.pending@
    }

    /// At most `max_concurrent` jobs at once (one when zero is asked for); nothing running.
    pub fn new(max_concurrent: usize) -> (q: Self)
        ensures
            q.slots() == (if max_concurrent > 0 {
                max_concurrent as nat
            } else {
                1
            }),
            q.running() == 0,
            q.waiting().len() == 0,
    {
        let max = if max_concurrent > 0 {
            max_concurrent
        } else {
            1
        };
        JobQueue { max, active: 0, pending: VecDeque::new() }
    }

    /// Submit a job. It is handed back to be started now when a slot is free; otherwise it
    /// waits behind the jobs already waiting.
    pub fn submit(&mut self, job: T) -> (start: Option<T>)
        ensures
            final(self).slots() == old(self).slots(),
            final(self).running() <= final(self).slots(),
            old(self).running() < old(self).slots() ==> start == Some(job) && final(self).running()
                == old(self).running() + 1 && final(self).waiting() == old(self).waiting(),
            old(self).running() >= old(self).slots() ==> start is None && final(self).running()
                == old(self).running() && final(self).waiting() == old(self).waiting().push(job),
    {
        proof {
            use_type_invariant(&*self);
        }
        if self.active < self.max {
            self.active = self.active + 1;
            Some(job)
        } else {
            let mut pending = VecDeque::new();
            std::mem::swap(&mut pending, &mut self.pending);
            pending.push_back(job);
            self.pending = pending;
            None
        }
    }

    /// A running job finished. Its slot goes to the oldest waiting job, which is handed back
    /// to be started; with nothing waiting the slot is freed.
    pub fn finish(&mut self) -> (next: Option<T>)
        ensures
            final(self).slots() == old(self).slots(),
            final(self).running() <= final(self).slots(),
            old(self).waiting().len() > 0 ==> next == Some(old(self).waiting()[0]),
            old(self).waiting().len() > 0 ==> final(self).waiting() == old(self).waiting().drop_first(),
            old(self).waiting().len() > 0 ==> final(self).running() == (if old(self).running() > 0 {
                old(self).running()
            } else {
                1
            }),
            old(self).waiting().len() == 0 ==> next is None,
            old(self).waiting().len() == 0 ==> final(self).waiting() == old(self).waiting(),
            old(self).waiting().len() == 0 ==> final(self).running() == (if old(self).running() > 0 {
                (old(self).running() - 1) as nat
            } else {
                0
            }),
    {
        proof {
            use_type_invariant(&*self);
        }
        let freed = if self.active > 0 {
            self.active - 1
        } else {
            0
        };
        if freed < self.max {
            let mut pending = VecDeque::new();
            std::mem::swap(&mut pending, &mut self.pending);
            let next = pending.pop_front();
            self.pending = pending;
            match next {
                Some(j) => {
                    self.active = freed + 1;
                    Some(j)
                },
                None => {
                    self.active = freed;
                    None
                },
            }
        } else {
            self.active = freed;
            None
        }
    }
}

} // verus!
