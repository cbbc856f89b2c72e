//! A pool of reusable byte buffers of one fixed size — sized by the
//! geometry calculator — so the hot encode/decode path does not allocate
//! per call. Acquired buffers always have exactly the pool's unit length;
//! releasing a buffer of any other length discards it.

use vstd::prelude::*;

verus! {

/// A pool of interchangeable byte buffers, all of length `unit`.
pub struct BufferPool {
    pub unit: usize,
    pub free: Vec<Vec<u8>>,
}

impl BufferPool {
    /// Every held buffer has exactly the unit length.
    pub open spec fn wf(&self) -> bool {
        forall|i: int| 0 <= i < self.free@.len() ==> (#[trigger] self.free@[i])@.len() == self.unit
    }

    /// An empty pool for buffers of the given length.
    pub fn new(unit: usize) -> (r: BufferPool)
        ensures
            r.wf(),
            r.unit == unit,
            r.free@.len() == 0,
    {
        BufferPool { unit, free: Vec::new() }
    }

    /// Hands out one buffer of the unit length: a pooled one when
    /// available, otherwise a fresh zero-filled one.
    pub fn acquire(&mut self) -> (r: Vec<u8>)
        requires
            old(self).wf(),
        ensures
            final(self).wf(),
            final(self).unit == old(self).unit,
            r@.len() == old(self).unit,
            old(self).free@.len() > 0 ==> final(self).free@.len() == old(self).free@.len() - 1,
            old(self).free@.len() == 0 ==> final(self).free@.len() == 0 && (forall|i: int|
                0 <= i < r@.len() ==> r@[i] == 0u8),
    {
        match self.free.pop() {
            Some(buf) => buf,
            None => {
                let n = self.unit;
                let mut r: Vec<u8> = Vec::new();
                let mut i: usize = 0;
                while i < n
                    invariant
                        0 <= i <= n,
                        r@.len() == i,
                        forall|j: int| 0 <= j < i ==> r@[j] == 0u8,
                        n == old(self).unit,
                        self.unit == old(self).unit,
                        self.free@ == old(self).free@,
                        old(self).free@.len() == 0,
                    decreases n - i,
                {
                    r.push(0);
                    i += 1;
                }
                r
            },
        }
    }

    /// Takes a buffer back. A buffer of the unit length rejoins the pool;
    /// any other is dropped, so the pool invariant can never break.
    pub fn release(&mut self, buf: Vec<u8>)
        requires
            old(self).wf(),
        ensures
            final(self).wf(),
            final(self).unit == old(self).unit,
            buf@.len() == old(self).unit ==> final(self).free@.len() == old(self).free@.len() + 1,
            buf@.len() != old(self).unit ==> *final(self) == *old(self),
    {
        if buf.len() == self.unit {
            self.free.push(buf);
        }
    }

    /// How many buffers are pooled right now.
    pub fn available(&self) -> (r: usize)
        ensures
            r == self.free@.len(),
    {
        self.free.len()
    }
}

} // verus!
