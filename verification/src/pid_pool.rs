//! Allocator for MQTT packet identifiers.
//!
//! PIDs are 16-bit integers in [1, 65535]. A PID handed out by `alloc`
//! is not handed out again until `free` returns it; `free` reports a
//! double-free. The allocator scans monotonically from a cursor and
//! wraps, so freed PIDs are eventually reused but not immediately.

use vstd::prelude::*;

verus! {

/// Pool of free packet identifiers.
pub struct PidPool {
    /// `used[p]` for p in [1, 65535] says whether PID p is currently
    /// allocated; index 0 is never used.
    used: Vec<bool>,
    /// Next PID to try first, in [1, 65535].
    next: u16,
}

impl PidPool {
    /// The set of currently allocated PIDs.
    pub closed spec fn allocated(self) -> Set<u16> {
        Set::new(|p: u16| 1 <= p && self.used@[p as int])
    }

    pub closed spec fn wf(self) -> bool {
        &&& self.used@.len() == 65536
        &&& 1 <= self.next <= 65535
    }

    /// A fresh pool with every PID free.
    pub fn new() -> (r: PidPool)
        ensures
            r.wf(),
            r.allocated() == Set::<u16>::empty(),
    {
        let mut used: Vec<bool> = Vec::new();
        let mut i: usize = 0;
        while i < 65536
            invariant
                used@.len() == i,
                i <= 65536,
                forall|j: int| 0 <= j < i ==> !used@[j],
            decreases 65536 - i,
        {
            used.push(false);
            i += 1;
        }
        let r = PidPool { used, next: 1 };
        proof {
            assert(r.allocated() =~= Set::<u16>::empty());
        }
        r
    }

    /// Allocate a PID that is not currently held. Returns `None` if and
    /// only if every PID in [1, 65535] is allocated; otherwise the
    /// returned PID joins the allocated set and no other PID changes.
    pub fn alloc_pid(&mut self) -> (r: Option<u16>)
        requires
            old(self).wf(),
        ensures
            final(self).wf(),
            match r {
                Some(p) => {
                    &&& 1 <= p
                    &&& !old(self).allocated().contains(p)
                    &&& final(self).allocated() == old(self).allocated().insert(p)
                },
                None => {
                    &&& final(self).allocated() == old(self).allocated()
                    &&& forall|q: u16| 1 <= q ==> old(self).allocated().contains(q)
                },
            },
    {
        let start: usize = self.next as usize;
        let mut i: usize = start;
        while i < 65536
            invariant
                self.wf(),
                self.used@ == old(self).used@,
                self.next == old(self).next,
                start == self.next as usize,
                start <= i,
                forall|j: int| start <= j < i ==> self.used@[j],
            decreases 65536 - i,
        {
            if !self.used[i] {
                return Some(self.take_at(i));
            }
            i += 1;
        }
        let mut k: usize = 1;
        while k < start
            invariant
                self.wf(),
                self.used@ == old(self).used@,
                self.next == old(self).next,
                start == self.next as usize,
                1 <= k,
                forall|j: int| start <= j < 65536 ==> self.used@[j],
                forall|j: int| 1 <= j < k ==> self.used@[j],
            decreases start - k,
        {
            if !self.used[k] {
                return Some(self.take_at(k));
            }
            k += 1;
        }
        assert forall|q: u16| 1 <= q implies self.allocated().contains(q) by {
            assert(self.used@[q as int]);
        }
        None
    }

    /// Mark the free slot `i` allocated and advance the cursor past it.
    fn take_at(&mut self, i: usize) -> (p: u16)
        requires
            old(self).wf(),
            1 <= i <= 65535,
            !old(self).used@[i as int],
        ensures
            final(self).wf(),
            p == i,
            !old(self).allocated().contains(p),
            final(self).allocated() == old(self).allocated().insert(p),
    {
        let p: u16 = i as u16;
        self.used[i] = true;
        self.next = if p == 65535 {
            1
        } else {
            p + 1
        };
        proof {
            assert(self.allocated() =~= old(self).allocated().insert(p));
        }
        p
    }

    /// Release a PID. Returns `true` if and only if the PID was already
    /// free, which the caller must treat as a double-free error; in
    /// every case the PID is free afterwards.
    pub fn free(&mut self, p: u16) -> (was_free: bool)
        requires
            old(self).wf(),
            1 <= p,
        ensures
            final(self).wf(),
            was_free == !old(self).allocated().contains(p),
            final(self).allocated() == old(self).allocated().remove(p),
    {
        let was_used: bool = self.used[p as usize];
        self.used[p as usize] = false;
        proof {
            assert(self.allocated() =~= old(self).allocated().remove(p));
        }
        !was_used
    }
}

} // verus!
