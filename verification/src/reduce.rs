//! The model of terminal reduction: the fold-step contract and the exact
//! sequence of lane chunks a packed iterator delivers — all full vectors in
//! order, then at most one partial vector padded from a caller-supplied
//! default. The reduction itself is the `simd_reduce` method every packed
//! iterator provides.

use vstd::prelude::*;
use crate::vecs::Packed;
use crate::vecs::U32x4;

verus! {

/// One fold step, combining an accumulator with one vector. The step is
/// described exactly by a function of the accumulator and the vector's lanes.
pub trait PackedFold<A, V: Packed>: Sized {
    /// What one step computes, as a function of the incoming lanes.
    spec fn spec_fold(&self, acc: A, lanes: Seq<<V as Packed>::Scalar>) -> A;

    /// Perform one fold step.
    fn fold(&self, acc: A, v: V) -> (r: A)
        ensures
            r == self.spec_fold(acc, v.lanes()),
    ;
}

/// The lane sequences of the vectors a packed iterator over `s` standing at
/// `pos` will deliver: full chunks of width `w` while they last, then, when a
/// ragged tail remains, exactly one partial chunk made of the remaining
/// elements padded by `fill` of the number of real elements present.
pub open spec fn chunk_lanes<S>(
    s: Seq<S>,
    pos: nat,
    w: nat,
    fill: spec_fn(nat) -> Seq<S>,
) -> Seq<Seq<S>>
    decreases s.len() - pos,
{
    if w < 1 || pos > s.len() {
        Seq::empty()
    } else if pos + w <= s.len() {
        seq![s.subrange(pos as int, (pos + w) as int)] + chunk_lanes(s, (pos + w) as nat, w, fill)
    } else if pos < s.len() {
        seq![s.subrange(pos as int, s.len() as int) + fill((s.len() - pos) as nat)]
    } else {
        Seq::empty()
    }
}

/// Fold `f` left-to-right from `acc` over a sequence of lane sequences.
pub open spec fn fold_lanes<A, V: Packed, F: PackedFold<A, V>>(
    f: F,
    acc: A,
    chunks: Seq<Seq<<V as Packed>::Scalar>>,
) -> A
    decreases chunks.len(),
{
    if chunks.len() == 0 {
        acc
    } else {
        fold_lanes(f, f.spec_fold(acc, chunks[0]), chunks.subrange(1, chunks.len() as int))
    }
}

/// A sample fold over four-lane `u32` vectors: keep, lane by lane, the
/// maximum of the accumulator and the incoming vector.
#[derive(Debug)]
pub struct MaxFold {}

impl PackedFold<U32x4, U32x4> for MaxFold {
    open spec fn spec_fold(&self, acc: U32x4, lanes: Seq<u32>) -> U32x4 {
        U32x4 {
            l0: if acc.l0 >= lanes[0] { acc.l0 } else { lanes[0] },
            l1: if acc.l1 >= lanes[1] { acc.l1 } else { lanes[1] },
            l2: if acc.l2 >= lanes[2] { acc.l2 } else { lanes[2] },
            l3: if acc.l3 >= lanes[3] { acc.l3 } else { lanes[3] },
        }
    }

    fn fold(&self, acc: U32x4, v: U32x4) -> (r: U32x4) {
        U32x4 {
            l0: if acc.l0 >= v.l0 { acc.l0 } else { v.l0 },
            l1: if acc.l1 >= v.l1 { acc.l1 } else { v.l1 },
            l2: if acc.l2 >= v.l2 { acc.l2 } else { v.l2 },
            l3: if acc.l3 >= v.l3 { acc.l3 } else { v.l3 },
        }
    }
}

} // verus!
