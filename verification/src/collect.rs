//! Conversion back to scalars: drain a packed iterator into an in-order
//! scalar buffer, storing full vectors at vector granularity and then writing
//! the ragged remainder one scalar at a time. Every written slot is written
//! before any slot is exposed: a freshly collected buffer is pre-filled with
//! the neutral scalar and then overwritten in place.

use vstd::prelude::*;
use vstd::pervasive::VecAdditionalExecFns;
use crate::vecs::Packed;
use crate::iters::PackedIterator;

verus! {

/// Drain a packed iterator back into plain scalars.
pub trait IntoScalar<T: Copy>: PackedIterator<Scalar = T> {
    /// Allocate a buffer of exactly `scalar_len()` elements and fill it with
    /// the remaining elements of the iterator, in order, starting at slot
    /// zero. On a fresh iterator the buffer is exactly the scalar sequence;
    /// slots past the remaining elements hold the neutral scalar.
    fn scalar_collect(&mut self) -> (r: Vec<T>)
        requires
            old(self).wf(),
        ensures
            final(self).wf(),
            final(self).scalars() == old(self).scalars(),
            final(self).pos() == old(self).scalars().len(),
            r@.len() == old(self).scalars().len(),
            forall|j: int|
                0 <= j < old(self).scalars().len() - old(self).pos()
                    ==> r@[j] == old(self).scalars()[old(self).pos() + j],
            forall|j: int|
                old(self).scalars().len() - old(self).pos() <= j < r@.len() ==> r@[j]
                    == <Self::Vector as Packed>::default_lane(),
    ;

    /// Write the remaining elements of the iterator, in order, into the first
    /// slots of `fill`, leaving every other slot of `fill` unchanged. The
    /// buffer must hold at least `scalar_len()` elements.
    fn scalar_fill(&mut self, fill: &mut Vec<T>)
        requires
            old(self).wf(),
            old(fill)@.len() >= old(self).scalars().len(),
        ensures
            final(self).wf(),
            final(self).scalars() == old(self).scalars(),
            final(self).pos() == old(self).scalars().len(),
            final(fill)@.len() == old(fill)@.len(),
            forall|j: int|
                0 <= j < old(self).scalars().len() - old(self).pos()
                    ==> final(fill)@[j] == old(self).scalars()[old(self).pos() + j],
            forall|j: int|
                old(self).scalars().len() - old(self).pos() <= j < old(fill)@.len()
                    ==> final(fill)@[j] == old(fill)@[j],
    ;
}

impl<T: Copy, I: PackedIterator<Scalar = T>> IntoScalar<T> for I {
    fn scalar_collect(&mut self) -> (r: Vec<T>) {
        proof {
            self.wf_facts();
        }
        let n = self.scalar_len();
        let mut ret: Vec<T> = Vec::with_capacity(n);
        while ret.len() < n
            invariant
                ret@.len() <= n,
                forall|j: int|
                    0 <= j < ret@.len() ==> #[trigger] ret@[j]
                        == <<I as PackedIterator>::Vector as Packed>::default_lane(),
            decreases n - ret@.len(),
        {
            ret.push(<<I as PackedIterator>::Vector as Packed>::default_lane_value());
        }
        let ghost prefill = ret@;
        self.scalar_fill(&mut ret);
        proof {
            assert forall|j: int|
                old(self).scalars().len() - old(self).pos() <= j < ret@.len() implies ret@[j]
                == <<I as PackedIterator>::Vector as Packed>::default_lane() by {
                assert(ret@[j] == prefill[j]);
            }
        }
        ret
    }

    fn scalar_fill(&mut self, fill: &mut Vec<T>) {
        let w = self.width();
        let m: usize = fill.len();
        let mut offset: usize = 0;
        proof {
            self.wf_facts();
        }
        let mut go = true;
        while go
            invariant
                self.wf(),
                self.pos() <= self.scalars().len(),
                self.scalars() == old(self).scalars(),
                old(self).pos() <= self.pos(),
                w == <<I as PackedIterator>::Vector as Packed>::width_spec(),
                m == fill@.len(),
                fill@.len() == old(fill)@.len(),
                fill@.len() >= self.scalars().len(),
                offset + old(self).pos() == self.pos(),
                forall|j: int|
                    0 <= j < offset
                        ==> #[trigger] fill@[j] == old(self).scalars()[old(self).pos() + j],
                forall|j: int|
                    offset <= j < fill@.len() ==> #[trigger] fill@[j] == old(fill)@[j],
                !go ==> self.pos() + w > self.scalars().len(),
            decreases self.scalars().len() - self.pos() + (if go {
                1int
            } else {
                0int
            }),
        {
            match self.next_vector() {
                Some(v) => {
                    proof {
                        v.lanes_len();
                        self.wf_facts();
                    }
                    v.store(fill, offset);
                    offset = offset + w;
                },
                None => {
                    go = false;
                },
            }
        }
        let mut go2 = true;
        while go2
            invariant
                self.wf(),
                self.pos() <= self.scalars().len(),
                self.scalars() == old(self).scalars(),
                old(self).pos() <= self.pos(),
                m == fill@.len(),
                fill@.len() == old(fill)@.len(),
                fill@.len() >= self.scalars().len(),
                offset + old(self).pos() == self.pos(),
                forall|j: int|
                    0 <= j < offset
                        ==> #[trigger] fill@[j] == old(self).scalars()[old(self).pos() + j],
                forall|j: int|
                    offset <= j < fill@.len() ==> #[trigger] fill@[j] == old(fill)@[j],
                !go2 ==> self.pos() == self.scalars().len(),
            decreases self.scalars().len() - self.pos() + (if go2 {
                1int
            } else {
                0int
            }),
        {
            match self.next() {
                Some(sc) => {
                    proof {
                        self.wf_facts();
                    }
                    fill.set(offset, sc);
                    offset = offset + 1;
                },
                None => {
                    go2 = false;
                },
            }
        }
    }
}

} // verus!
