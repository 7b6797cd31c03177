//! The vector capability: the contract a scalar/vector type pair must satisfy
//! to plug into the packed iteration engine, together with concrete
//! fixed-width vector types that satisfy it.

use vstd::prelude::*;
use vstd::slice::slice_index_get;
use vstd::pervasive::VecAdditionalExecFns;

verus! {

/// A scalar type that can be packed into a fixed-width vector.
pub trait Packable: Copy + Sized {
    /// The vector type holding `width_spec()` lanes of this scalar.
    type Vector: Packed<Scalar = Self>;
}

/// A fixed-width vector of scalars. Its mathematical model is the sequence of
/// its lanes, always exactly `width_spec()` long.
pub trait Packed: Copy + Sized {
    /// The scalar type of each lane.
    type Scalar: Copy;

    /// The neutral (identity) value of the scalar, used to pre-fill buffers
    /// and to default-construct vectors.
    spec fn default_lane() -> Self::Scalar;

    /// Produce the neutral scalar value.
    fn default_lane_value() -> (r: Self::Scalar)
        ensures
            r == Self::default_lane(),
    ;

    /// The lanes of this vector, in order.
    spec fn lanes(&self) -> Seq<Self::Scalar>;

    /// The lane count, fixed for the type.
    spec fn width_spec() -> nat;

    /// Every vector value has exactly `width_spec()` lanes, and the width is
    /// at least one.
    proof fn lanes_len(&self)
        ensures
            self.lanes().len() == Self::width_spec(),
            Self::width_spec() >= 1,
    ;

    /// The lane count, as a run-time value.
    fn width() -> (w: usize)
        ensures
            w == Self::width_spec(),
    ;

    /// Read `width_spec()` contiguous scalars starting at `offset`.
    fn load(data: &[Self::Scalar], offset: usize) -> (v: Self)
        requires
            offset + Self::width_spec() <= data@.len(),
        ensures
            v.lanes() == data@.subrange(offset as int, offset + Self::width_spec()),
    ;

    /// Write the lanes into `out` at `offset`, leaving every other element of
    /// `out` unchanged.
    fn store(&self, out: &mut Vec<Self::Scalar>, offset: usize)
        requires
            offset + Self::width_spec() <= old(out)@.len(),
        ensures
            final(out)@.len() == old(out)@.len(),
            forall|i: int|
                offset <= i < offset + Self::width_spec() ==> final(out)@[i] == self.lanes()[i - offset],
            forall|i: int|
                0 <= i < old(out)@.len() && !(offset <= i < offset + Self::width_spec())
                    ==> final(out)@[i] == old(out)@[i],
    ;

    /// A vector with every lane equal to `value`.
    fn splat(value: Self::Scalar) -> (v: Self)
        ensures
            v.lanes() == Seq::new(Self::width_spec(), |i: int| value),
    ;

    /// Read one lane.
    fn extract(&self, lane: usize) -> (s: Self::Scalar)
        requires
            lane < Self::width_spec(),
        ensures
            s == self.lanes()[lane as int],
    ;

    /// A copy of this vector with lane `lane` replaced by `value` and every
    /// other lane unchanged.
    fn replace(&self, lane: usize, value: Self::Scalar) -> (v: Self)
        requires
            lane < Self::width_spec(),
        ensures
            v.lanes() == self.lanes().update(lane as int, value),
    ;

    /// A vector with every lane equal to the scalar's neutral value.
    fn default_vec() -> (v: Self)
        ensures
            v.lanes() == Seq::new(Self::width_spec(), |i: int| Self::default_lane()),
    ;

    /// Project the vector down to one scalar. The projection is caller-defined
    /// in general; on a vector whose lanes are all equal it yields that common
    /// lane value.
    fn coalesce(self) -> (s: Self::Scalar)
        ensures
            (forall|i: int| 0 <= i < self.lanes().len() ==> #[trigger] self.lanes()[i] == self.lanes()[0])
                ==> s == self.lanes()[0],
    ;
}

/// A four-lane vector of `u32` scalars.
#[derive(Clone, Copy, Debug)]
pub struct U32x4 {
    pub l0: u32,
    pub l1: u32,
    pub l2: u32,
    pub l3: u32,
}

impl Packable for u32 {
    type Vector = U32x4;
}

impl Packed for U32x4 {
    type Scalar = u32;

    open spec fn default_lane() -> u32 {
        0
    }

    fn default_lane_value() -> (r: u32) {
        0
    }

    open spec fn lanes(&self) -> Seq<u32> {
        seq![self.l0, self.l1, self.l2, self.l3]
    }

    open spec fn width_spec() -> nat {
        4
    }

    proof fn lanes_len(&self) {
    }

    fn width() -> (w: usize) {
        4
    }

    fn load(data: &[u32], offset: usize) -> (v: Self) {
        let n = data.len();
        let v = U32x4 {
            l0: *slice_index_get(data, offset),
            l1: *slice_index_get(data, offset + 1),
            l2: *slice_index_get(data, offset + 2),
            l3: *slice_index_get(data, offset + 3),
        };
        proof {
            assert(v.lanes() =~= data@.subrange(offset as int, offset + Self::width_spec()));
        }
        v
    }

    fn store(&self, out: &mut Vec<u32>, offset: usize) {
        let n = out.len();
        out.set(offset, self.l0);
        out.set(offset + 1, self.l1);
        out.set(offset + 2, self.l2);
        out.set(offset + 3, self.l3);
    }

    fn splat(value: u32) -> (v: Self) {
        let v = U32x4 { l0: value, l1: value, l2: value, l3: value };
        proof {
            assert(v.lanes() =~= Seq::new(Self::width_spec(), |i: int| value));
        }
        v
    }

    fn extract(&self, lane: usize) -> (s: u32) {
        if lane == 0 {
            self.l0
        } else if lane == 1 {
            self.l1
        } else if lane == 2 {
            self.l2
        } else {
            self.l3
        }
    }

    fn replace(&self, lane: usize, value: u32) -> (v: Self) {
        let v = if lane == 0 {
            U32x4 { l0: value, ..*self }
        } else if lane == 1 {
            U32x4 { l1: value, ..*self }
        } else if lane == 2 {
            U32x4 { l2: value, ..*self }
        } else {
            U32x4 { l3: value, ..*self }
        };
        proof {
            assert(v.lanes() =~= self.lanes().update(lane as int, value));
        }
        v
    }

    fn default_vec() -> (v: Self) {
        let v = U32x4 { l0: 0, l1: 0, l2: 0, l3: 0 };
        proof {
            assert(v.lanes() =~= Seq::new(Self::width_spec(), |i: int| Self::default_lane()));
        }
        v
    }

    fn coalesce(self) -> (s: u32) {
        self.l0
    }
}

/// A two-lane vector of `u64` scalars.
#[derive(Clone, Copy, Debug)]
pub struct U64x2 {
    pub l0: u64,
    pub l1: u64,
}

impl Packable for u64 {
    type Vector = U64x2;
}

impl Packed for U64x2 {
    type Scalar = u64;

    open spec fn default_lane() -> u64 {
        0
    }

    fn default_lane_value() -> (r: u64) {
        0
    }

    open spec fn lanes(&self) -> Seq<u64> {
        seq![self.l0, self.l1]
    }

    open spec fn width_spec() -> nat {
        2
    }

    proof fn lanes_len(&self) {
    }

    fn width() -> (w: usize) {
        2
    }

    fn load(data: &[u64], offset: usize) -> (v: Self) {
        let n = data.len();
        let v = U64x2 {
            l0: *slice_index_get(data, offset),
            l1: *slice_index_get(data, offset + 1),
        };
        proof {
            assert(v.lanes() =~= data@.subrange(offset as int, offset + Self::width_spec()));
        }
        v
    }

    fn store(&self, out: &mut Vec<u64>, offset: usize) {
        let n = out.len();
        out.set(offset, self.l0);
        out.set(offset + 1, self.l1);
    }

    fn splat(value: u64) -> (v: Self) {
        let v = U64x2 { l0: value, l1: value };
        proof {
            assert(v.lanes() =~= Seq::new(Self::width_spec(), |i: int| value));
        }
        v
    }

    fn extract(&self, lane: usize) -> (s: u64) {
        if lane == 0 {
            self.l0
        } else {
            self.l1
        }
    }

    fn replace(&self, lane: usize, value: u64) -> (v: Self) {
        let v = if lane == 0 {
            U64x2 { l0: value, ..*self }
        } else {
            U64x2 { l1: value, ..*self }
        };
        proof {
            assert(v.lanes() =~= self.lanes().update(lane as int, value));
        }
        v
    }

    fn default_vec() -> (v: Self) {
        let v = U64x2 { l0: 0, l1: 0 };
        proof {
            assert(v.lanes() =~= Seq::new(Self::width_spec(), |i: int| Self::default_lane()));
        }
        v
    }

    fn coalesce(self) -> (s: u64) {
        self.l0
    }
}

} // verus!
