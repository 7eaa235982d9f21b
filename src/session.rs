//! A session's table of browse continuation points, bounded in size.

use vstd::prelude::*;
use crate::browse::ContinuationPoint;
use crate::types::StatusCode;

verus! {

/// The default bound on continuation points a session holds.
pub const MAX_BROWSE_CONTINUATION_POINTS: usize = 10;

/// A stored continuation point and the handle the client names it by.
#[derive(Debug)]
pub struct StoredContinuationPoint {
    pub handle: u32,
    pub point: ContinuationPoint,
}

#[derive(Debug)]
pub struct Session {
    pub max_continuation_points: usize,
    pub next_handle: u32,
    pub continuation_points: Vec<StoredContinuationPoint>,
}

impl Session {
    /// At most the bound of points, each with a handle below the next one,
    /// no two with the same handle.
    pub open spec fn wf(&self) -> bool {
        &&& self.continuation_points@.len() <= self.max_continuation_points
        &&& forall|i: int|
            0 <= i < self.continuation_points@.len() ==> (#[trigger] self.continuation_points@[i]).handle
                < self.next_handle
        &&& forall|i: int, j: int|
            0 <= i < self.continuation_points@.len() && 0 <= j < self.continuation_points@.len() && i != j
                ==> (#[trigger] self.continuation_points@[i]).handle != (#[trigger] self.continuation_points@[j]).handle
    }

    pub open spec fn holds(&self, handle: u32) -> bool {
        exists|i: int| 0 <= i < self.continuation_points@.len() && #[trigger] self.continuation_points@[i].handle == handle
    }

    pub fn new(max_continuation_points: usize) -> (r: Session)
        ensures
            r.wf(),
            r.max_continuation_points == max_continuation_points,
            r.continuation_points@.len() == 0,
    {
        Session { max_continuation_points, next_handle: 1, continuation_points: Vec::new() }
    }

    /// Stores a continuation point under a fresh handle.
    /// `BadNoContinuationPoints` when the table is full or handles have run
    /// out.
    pub fn store(&mut self, point: ContinuationPoint) -> (r: Result<u32, StatusCode>)
        requires
            old(self).wf(),
        ensures
            final(self).wf(),
            final(self).max_continuation_points == old(self).max_continuation_points,
            old(self).continuation_points@.len() >= old(self).max_continuation_points || old(self).next_handle
                == u32::MAX ==> r == Err::<u32, StatusCode>(StatusCode::BadNoContinuationPoints)
                && final(self).continuation_points@ == old(self).continuation_points@,
            old(self).continuation_points@.len() < old(self).max_continuation_points && old(self).next_handle
                < u32::MAX ==> ({
                &&& r == Ok::<u32, StatusCode>(old(self).next_handle)
                &&& !old(self).holds(old(self).next_handle)
                &&& final(self).continuation_points@.len() == old(self).continuation_points@.len() + 1
                &&& final(self).continuation_points@.drop_last() == old(self).continuation_points@
                &&& final(self).continuation_points@.last().handle == old(self).next_handle
                &&& final(self).continuation_points@.last().point == point
            }),
    {
        if self.continuation_points.len() >= self.max_continuation_points || self.next_handle == u32::MAX {
            return Err(StatusCode::BadNoContinuationPoints);
        }
        let handle = self.next_handle;
        let ghost q = self.continuation_points@;
        self.continuation_points.push(StoredContinuationPoint { handle, point });
        self.next_handle = handle + 1;
        assert(self.continuation_points@.drop_last() =~= q);
        Ok(handle)
    }

    /// Takes the point stored under `handle` out of the table: it serves
    /// once. `None` if no point has that handle.
    pub fn take(&mut self, handle: u32) -> (r: Option<ContinuationPoint>)
        requires
            old(self).wf(),
        ensures
            final(self).wf(),
            final(self).max_continuation_points == old(self).max_continuation_points,
            r is Some <==> old(self).holds(handle),
            !final(self).holds(handle),
            r is None ==> final(self).continuation_points@ == old(self).continuation_points@,
            r is Some ==> exists|i: int|
                0 <= i < old(self).continuation_points@.len() && #[trigger] old(self).continuation_points@[i].handle
                    == handle && r == Some(old(self).continuation_points@[i].point),
            r is Some ==> final(self).continuation_points@.len() == old(self).continuation_points@.len() - 1,
            forall|h: u32| h != handle ==> (#[trigger] final(self).holds(h) == old(self).holds(h)),
    {
        let mut i: usize = 0;
        while i < self.continuation_points.len()
            invariant
                self.wf(),
                *self == *old(self),
                i <= self.continuation_points@.len(),
                forall|j: int| 0 <= j < i ==> #[trigger] self.continuation_points@[j].handle != handle,
            decreases self.continuation_points@.len() - i,
        {
            if self.continuation_points[i].handle == handle {
                let ghost q = self.continuation_points@;
                let stored = self.continuation_points.remove(i);
                proof {
                    assert(self.continuation_points@ =~= q.remove(i as int));
                    assert(q[i as int].handle == handle);
                    assert(stored.point == q[i as int].point);
                    assert forall|h: u32| h != handle implies (#[trigger] self.holds(h) == old(self).holds(h)) by {
                        if old(self).holds(h) {
                            let j = choose|j: int| 0 <= j < q.len() && #[trigger] q[j].handle == h;
                            if j < i {
                                assert(self.continuation_points@[j].handle == h);
                            } else {
                                assert(self.continuation_points@[j - 1].handle == h);
                            }
                        }
                        if self.holds(h) {
                            let j = choose|j: int|
                                0 <= j < self.continuation_points@.len() && #[trigger] self.continuation_points@[j].handle
                                    == h;
                            if j < i {
                                assert(q[j].handle == h);
                            } else {
                                assert(q[j + 1].handle == h);
                            }
                        }
                    }
                    if self.holds(handle) {
                        let j = choose|j: int|
                            0 <= j < self.continuation_points@.len() && #[trigger] self.continuation_points@[j].handle
                                == handle;
                        if j < i {
                            assert(q[j].handle == handle);
                        } else {
                            assert(q[j + 1].handle == handle);
                        }
                    }
                }
                return Some(stored.point);
            }
            i = i + 1;
        }
        None
    }
}

} // verus!
