//! Bookkeeping for driver-side object handles.
//!
//! Every GPU object this core manages (shader stages, programs, buffers,
//! vertex arrays) is named by a nonzero handle that the driver hands out.
//! Handles are only unique within one driver name space: shader and program
//! objects share a name space, while buffer objects and vertex-array objects
//! each have one of their own, and drivers commonly number every name space
//! from one. A ledger therefore covers exactly one name space — callers keep
//! one ledger per name space — and records which of its handles are currently
//! alive, so that constructors can show they leak nothing on failure and
//! release paths can show each handle dies exactly once.

use vstd::prelude::*;

verus! {

/// The driver-side handles of one name space that the core currently owns,
/// kept as a duplicate-free list. Zero is never a valid handle.
pub struct HandleLedger {
    live: Vec<u32>,
}

impl HandleLedger {
    /// The live handles, in acquisition order.
    pub closed spec fn live(&self) -> Seq<u32> {
        self.live@
    }

    /// Whether handle `h` is currently alive.
    pub open spec fn is_live(&self, h: u32) -> bool {
        self.live().contains(h)
    }

    /// The ledger never lists a handle twice and never lists zero.
    pub open spec fn wf(&self) -> bool {
        &&& forall|i: int, j: int|
            0 <= i < j < self.live().len() ==> self.live()[i] != self.live()[j]
        &&& !self.is_live(0u32)
    }

    /// An empty ledger: nothing acquired yet.
    pub fn new() -> (lg: HandleLedger)
        ensures
            lg.wf(),
            lg.live() == Seq::<u32>::empty(),
    {
        HandleLedger { live: Vec::new() }
    }

    /// How many handles are alive.
    pub fn live_count(&self) -> (n: usize)
        ensures
            n == self.live().len(),
    {
        self.live.len()
    }

    /// Whether handle `h` is currently alive.
    pub fn contains(&self, h: u32) -> (r: bool)
        ensures
            r == self.is_live(h),
    {
        let mut i: usize = 0;
        while i < self.live.len()
            invariant
                i <= self.live@.len(),
                forall|k: int| 0 <= k < i ==> self.live@[k] != h,
            decreases self.live@.len() - i,
        {
            if self.live[i] == h {
                return true;
            }
            i += 1;
        }
        false
    }

    /// Records that the driver handed out a fresh handle.
    pub fn acquire(&mut self, h: u32)
        requires
            old(self).wf(),
            h != 0,
            !old(self).is_live(h),
        ensures
            final(self).wf(),
            final(self).live() == old(self).live().push(h),
            final(self).is_live(h),
            forall|x: u32| x != h ==> final(self).is_live(x) == old(self).is_live(x),
    {
        self.live.push(h);
        assert forall|i: int, j: int| 0 <= i < j < self.live().len() implies self.live()[i]
            != self.live()[j] by {
            if j == self.live().len() - 1 {
                assert(old(self).live()[i] != h);
            }
        }
        assert(self.live()[self.live().len() - 1] == h);
        assert forall|x: u32| x != h implies self.is_live(x) == old(self).is_live(x) by {
            if old(self).live().contains(x) {
                let k = choose|k: int|
                    0 <= k < old(self).live().len() && old(self).live()[k] == x;
                assert(self.live()[k] == x);
            }
            if self.live().contains(x) {
                let k = choose|k: int| 0 <= k < self.live().len() && self.live()[k] == x;
                assert(k < old(self).live().len());
                assert(old(self).live()[k] == x);
            }
        }
    }

    /// Records that the handle was handed back to the driver for deletion.
    pub fn release(&mut self, h: u32)
        requires
            old(self).wf(),
            old(self).is_live(h),
        ensures
            final(self).wf(),
            !final(self).is_live(h),
            forall|x: u32| x != h ==> final(self).is_live(x) == old(self).is_live(x),
            final(self).live().len() == old(self).live().len() - 1,
    {
        let mut i: usize = 0;
        while i < self.live.len() && self.live[i] != h
            invariant
                i <= self.live@.len(),
                self.live@ == old(self).live(),
                old(self).live().contains(h),
                forall|k: int| 0 <= k < i ==> self.live@[k] != h,
            decreases self.live@.len() - i,
        {
            i += 1;
        }
        assert(i < self.live@.len() && self.live@[i as int] == h) by {
            let w = choose|w: int|
                0 <= w < old(self).live().len() && old(self).live()[w] == h;
            assert(w >= i);
        }
        let ghost pre = self.live@;
        let ghost pos = i as int;
        self.live.remove(i);
        assert(self.live@ == pre.subrange(0, pos) + pre.subrange(
            pos + 1,
            pre.len() as int,
        ));
        assert forall|p: int, q: int| 0 <= p < q < self.live@.len() implies self.live@[p]
            != self.live@[q] by {
            let p0: int = if p < pos { p } else { p + 1 };
            let q0: int = if q < pos { q } else { q + 1 };
            assert(self.live@[p] == pre[p0]);
            assert(self.live@[q] == pre[q0]);
        }
        assert forall|x: u32| x != h implies self.is_live(x) == old(self).is_live(x) by {
            if self.live@.contains(x) {
                let k = choose|k: int| 0 <= k < self.live@.len() && self.live@[k] == x;
                let k0: int = if k < pos { k } else { k + 1 };
                assert(pre[k0] == x);
            }
            if pre.contains(x) {
                let k = choose|k: int| 0 <= k < pre.len() && pre[k] == x;
                if k < pos {
                    assert(self.live@[k] == x);
                } else {
                    assert(k != pos);
                    assert(self.live@[k - 1] == x);
                }
            }
        }
        assert forall|k: int| 0 <= k < self.live@.len() implies self.live@[k] != h by {
            let k0: int = if k < pos { k } else { k + 1 };
            assert(self.live@[k] == pre[k0]);
            if k0 != pos {
                assert(pre[k0] != pre[pos]);
            }
        }
    }
}

} // verus!
