//! The process manager: it numbers the tasks that users start, with numbers
//! that stay small and dense.

use vstd::prelude::*;
use std::collections::HashMap;

verus! {

broadcast use vstd::std_specs::hash::group_hash_axioms;

/// What is left of the stack of free numbers and of the counter once the
/// numbers on top of the stack that lie just below the counter are absorbed
/// into it.
pub open spec fn absorb(free: Seq<u64>, next: u64) -> (Seq<u64>, u64)
    decreases free.len(),
{
    if free.len() > 0 && next > 0 && free.last() == next - 1 {
        absorb(free.drop_last(), (next - 1) as u64)
    } else {
        (free, next)
    }
}

/// The tasks that are alive, each under its number, the numbers that were
/// given back, and the counter that all numbers ever given lie below.
pub struct ProcessManager<T> {
    processes: HashMap<u64, T>,
    available: Vec<u64>,
    next: u64,
}

impl<T> ProcessManager<T> {
    /// The tasks that are alive, by number.
    pub closed spec fn live(&self) -> Map<u64, T> {
        self.processes@
    }

    /// The stack of numbers that were given back; its top is its end.
    pub closed spec fn free(&self) -> Seq<u64> {
        self.available@
    }

    /// The counter: the least number that was never given.
    pub closed spec fn next(&self) -> u64 {
        self.next
    }

    /// Every number that is alive or free lies below the counter, no free
    /// number is alive, and none is free twice.
    pub open spec fn wf(&self) -> bool {
        &&& forall|p: u64| #[trigger] self.live().contains_key(p) ==> p < self.next()
        &&& forall|i: int| 0 <= i < self.free().len() ==> #[trigger] self.free()[i] < self.next()
        &&& forall|i: int|
            0 <= i < self.free().len() ==> !self.live().contains_key(#[trigger] self.free()[i])
        &&& forall|i: int, j: int|
            0 <= i < j < self.free().len() ==> #[trigger] self.free()[i] != #[trigger] self.free()[j]
    }

    /// Whether another number can be given: one is free, or the counter can
    /// still grow.
    pub open spec fn spec_can_add(&self) -> bool {
        self.free().len() > 0 || self.next() < u64::MAX
    }

    /// The number that the next task gets: the top of the free stack, or
    /// else the counter.
    pub open spec fn next_pid(&self) -> u64 {
        if self.free().len() > 0 {
            self.free().last()
        } else {
            self.next()
        }
    }

    pub fn new() -> (m: Self)
        ensures
            m.live() == Map::<u64, T>::empty(),
            m.free() == Seq::<u64>::empty(),
            m.next() == 0,
            m.wf(),
    {
        Self { processes: HashMap::new(), available: Vec::new(), next: 0 }
    }

    /// Whether another number can be given.
    pub fn can_add(&self) -> (b: bool)
        ensures
            b == self.spec_can_add(),
    {
        self.available.len() > 0 || self.next < u64::MAX
    }

    /// Whether a task is alive under the number `pid`.
    pub fn is_live(&self, pid: u64) -> (b: bool)
        ensures
            b == self.live().contains_key(pid),
    {
        self.processes.contains_key(&pid)
    }

    /// Starts a task: takes the next number, lets `f` make the task for
    /// that number, and keeps the task under it. The number is the one most
    /// recently given back, or else the counter, which then grows by one.
    pub fn add<F: FnOnce(u64) -> T>(&mut self, f: F) -> (pid: u64)
        requires
            old(self).wf(),
            old(self).spec_can_add(),
            forall|p: u64| call_requires(f, (p,)),
        ensures
            pid == old(self).next_pid(),
            !old(self).live().contains_key(pid),
            final(self).live().contains_key(pid),
            call_ensures(f, (pid,), final(self).live()[pid]),
            final(self).live() == old(self).live().insert(pid, final(self).live()[pid]),
            final(self).free() == if old(self).free().len() > 0 {
                old(self).free().drop_last()
            } else {
                old(self).free()
            },
            final(self).next() == if old(self).free().len() > 0 {
                old(self).next() as int
            } else {
                old(self).next() + 1
            },
            final(self).wf(),
    {
        let to_add: u64 = match self.available.pop() {
            Some(pid) => pid,
            None => {
                let res = self.next;
                self.next = self.next + 1;
                res
            },
        };
        proof {
            if old(self).free().len() > 0 {
                assert(to_add == old(self).free()[old(self).free().len() - 1]);
            } else {
                assert(!old(self).live().contains_key(to_add));
            }
        }
        let handle = f(to_add);
        self.processes.insert(to_add, handle);
        proof {
            assert(self.live() =~= old(self).live().insert(to_add, self.live()[to_add]));
            assert forall|p: u64| #[trigger] self.live().contains_key(p) implies p
                < self.next() by {
                if p != to_add {
                    assert(old(self).live().contains_key(p));
                }
            }
            assert forall|i: int| 0 <= i < self.free().len() implies !self.live().contains_key(
                #[trigger] self.free()[i],
            ) by {
                assert(self.free()[i] == old(self).free()[i]);
            }
        }
        to_add
    }

    /// Ends the bookkeeping of the task `pid` and hands the task out, if
    /// there is one. Where the number is the one just below the counter, the
    /// counter shrinks to it and goes on shrinking over the free numbers on
    /// top of the stack that lie just below it; any other number is pushed
    /// on the free stack.
    #[verifier::rlimit(50)]
    pub fn stop_process(&mut self, pid: u64) -> (handle: Option<T>)
        requires
            old(self).wf(),
        ensures
            handle is Some == old(self).live().contains_key(pid),
            handle is Some ==> handle.unwrap() == old(self).live()[pid],
            final(self).live() == old(self).live().remove(pid),
            (final(self).free(), final(self).next()) == if !old(self).live().contains_key(pid) {
                (old(self).free(), old(self).next())
            } else if pid + 1 == old(self).next() {
                absorb(old(self).free(), pid)
            } else {
                (old(self).free().push(pid), old(self).next())
            },
            final(self).wf(),
    {
        let handle = self.processes.remove(&pid);
        if handle.is_none() {
            assert(self.live() =~= old(self).live());
            return handle;
        }
        assert(old(self).live().contains_key(pid));
        if pid + 1 == self.next {
            self.next = pid;
            proof {
                assert forall|i: int| 0 <= i < self.free().len() implies #[trigger] self.free()[i]
                    < self.next() by {
                    assert(!old(self).live().contains_key(old(self).free()[i]));
                }
            }
            while self.available.len() > 0 && self.next > 0 && self.available[self.available.len()
                - 1] == self.next - 1
                invariant
                    self.processes@ == old(self).live().remove(pid),
                    absorb(self.available@, self.next) == absorb(old(self).free(), pid),
                    self.wf(),
                decreases self.available@.len(),
            {
                let ghost before = self.available@;
                let ghost top = self.next;
                let ghost last = before.len() - 1;
                proof {
                    assert(before == self.free());
                    assert(!self.live().contains_key(before[last]));
                    assert forall|i: int| 0 <= i < last implies before[i] < top - 1 by {
                        assert(self.free()[i] < self.next());
                        assert(self.free()[i] != self.free()[last]);
                    }
                    assert forall|p: u64| self.live().contains_key(p) implies p < top - 1 by {
                        assert(p < self.next());
                    }
                    assert forall|i: int| 0 <= i < last implies !self.live().contains_key(
                        before[i],
                    ) by {
                        assert(!self.live().contains_key(self.free()[i]));
                    }
                    assert forall|i: int, j: int| 0 <= i < j < last implies before[i]
                        != before[j] by {
                        assert(self.free()[i] != self.free()[j]);
                    }
                }
                self.available.pop();
                self.next = self.next - 1;
                proof {
                    assert(self.available@ =~= before.drop_last());
                    assert forall|i: int| 0 <= i < self.free().len() implies #[trigger] self.free()[i]
                        < self.next() by {
                        assert(self.free()[i] == before[i]);
                    }
                    assert forall|i: int| 0 <= i < self.free().len() implies !self.live().contains_key(
                        #[trigger] self.free()[i],
                    ) by {
                        assert(self.free()[i] == before[i]);
                    }
                    assert forall|i: int, j: int| 0 <= i < j < self.free().len() implies #[trigger] self.free()[i]
                        != #[trigger] self.free()[j] by {
                        assert(self.free()[i] == before[i]);
                        assert(self.free()[j] == before[j]);
                    }
                }
            }
        } else {
            self.available.push(pid);
            proof {
                assert forall|i: int| 0 <= i < self.free().len() implies !self.live().contains_key(
                    #[trigger] self.free()[i],
                ) by {
                    if i < self.free().len() - 1 {
                        assert(self.free()[i] == old(self).free()[i]);
                        assert(!old(self).live().contains_key(old(self).free()[i]));
                    }
                }
                assert forall|i: int, j: int| 0 <= i < j < self.free().len() implies #[trigger] self.free()[i]
                    != #[trigger] self.free()[j] by {
                    assert(self.free()[i] == old(self).free()[i]);
                    assert(!old(self).live().contains_key(old(self).free()[i]));
                    if j < self.free().len() - 1 {
                        assert(self.free()[j] == old(self).free()[j]);
                    }
                }
            }
        }
        handle
    }
}

} // verus!
