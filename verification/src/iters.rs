//! The packed iteration engine: a cursor over an abstract scalar sequence that
//! yields fixed-width vectors, a slice-backed producer, and a map combinator.
//!
//! Every iterator is modelled by the scalar sequence `scalars()` it ranges
//! over and the count `pos()` of scalars already consumed. A full-vector step
//! advances `pos()` by exactly the vector width; a partial step jumps straight
//! to the end, so at most one partial vector is ever produced per pass: a
//! productive `next_partial` leaves `pos() == scalars().len()`, and every call
//! made at that position returns `None` and moves nothing.

use vstd::prelude::*;
use vstd::slice::slice_index_get;
use crate::vecs::Packable;
use crate::vecs::Packed;
use crate::vecs::U32x4;
use crate::reduce::chunk_lanes;
use crate::reduce::fold_lanes;
use crate::reduce::PackedFold;

verus! {

/// An iterator which packs the values it ranges over into fixed-width
/// vectors, with exact accounting of the scalars consumed.
pub trait PackedIterator: Sized {
    /// The scalar element type.
    type Scalar: Copy;

    /// The vector type into which scalars are packed.
    type Vector: Packed<Scalar = Self::Scalar>;

    /// The abstract scalar sequence this iterator ranges over, fixed for the
    /// iterator's lifetime.
    spec fn scalars(&self) -> Seq<Self::Scalar>;

    /// How many scalars have been consumed so far.
    spec fn pos(&self) -> nat;

    /// The cursor is in a usable state.
    spec fn wf(&self) -> bool;

    /// The lanes used to pad the single partial vector of a pass, given the
    /// lanes of the caller-supplied default vector and the number `present`
    /// of real elements the partial vector holds.
    spec fn fill_lanes(&self, default_lanes: Seq<Self::Scalar>, present: nat) -> Seq<Self::Scalar>;

    /// A usable cursor never stands past the end of its sequence.
    proof fn wf_facts(&self)
        requires
            self.wf(),
        ensures
            self.pos() <= self.scalars().len(),
    ;

    /// The padding fills the vector up exactly.
    proof fn fill_lanes_len(&self, default_lanes: Seq<Self::Scalar>, present: nat)
        requires
            self.wf(),
            default_lanes.len() == <Self::Vector as Packed>::width_spec(),
            present <= <Self::Vector as Packed>::width_spec(),
        ensures
            self.fill_lanes(default_lanes, present).len()
                == <Self::Vector as Packed>::width_spec() - present,
    ;

    /// The vector width of this stage, derived from the vector type.
    fn width(&self) -> (w: usize)
        ensures
            w == <Self::Vector as Packed>::width_spec(),
    ;

    /// The total number of scalar elements this iterator will ever yield.
    fn scalar_len(&self) -> (n: usize)
        ensures
            n == self.scalars().len(),
    ;

    /// The number of scalar elements already consumed.
    fn scalar_position(&self) -> (p: usize)
        ensures
            p == self.pos(),
    ;

    /// The total scalar length, for element-at-a-time consumers.
    fn len(&self) -> (n: usize)
        ensures
            n == self.scalars().len(),
    ;

    /// Exact bounds on the scalars still to come.
    fn size_hint(&self) -> (h: (usize, Option<usize>))
        requires
            self.wf(),
        ensures
            h.0 == self.scalars().len() - self.pos(),
            h.1 == Some(h.0),
    ;

    /// Yield the next single scalar and advance the cursor by one, or return
    /// `None` at the end of the sequence.
    fn next(&mut self) -> (r: Option<Self::Scalar>)
        requires
            old(self).wf(),
        ensures
            final(self).wf(),
            final(self).scalars() == old(self).scalars(),
            forall|d: Seq<Self::Scalar>, k: nat|
                #[trigger] final(self).fill_lanes(d, k) == old(self).fill_lanes(d, k),
            old(self).pos() < old(self).scalars().len() ==> {
                &&& r == Some(old(self).scalars()[old(self).pos() as int])
                &&& final(self).pos() == old(self).pos() + 1
            },
            old(self).pos() >= old(self).scalars().len() ==> {
                &&& r.is_none()
                &&& final(self).pos() == old(self).pos()
            },
    ;

    /// Pack and return a vector holding the next `width()` elements and
    /// advance the cursor by exactly `width()`, only if that many elements
    /// remain; otherwise return `None` and leave the cursor unchanged.
    fn next_vector(&mut self) -> (r: Option<Self::Vector>)
        requires
            old(self).wf(),
        ensures
            final(self).wf(),
            final(self).scalars() == old(self).scalars(),
            forall|d: Seq<Self::Scalar>, k: nat|
                #[trigger] final(self).fill_lanes(d, k) == old(self).fill_lanes(d, k),
            old(self).pos() + <Self::Vector as Packed>::width_spec() <= old(self).scalars().len()
                ==> {
                &&& r.is_some()
                &&& r.unwrap().lanes() == old(self).scalars().subrange(
                    old(self).pos() as int,
                    (old(self).pos() + <Self::Vector as Packed>::width_spec()) as int,
                )
                &&& final(self).pos() == old(self).pos()
                    + <Self::Vector as Packed>::width_spec()
            },
            old(self).pos() + <Self::Vector as Packed>::width_spec() > old(self).scalars().len()
                ==> {
                &&& r.is_none()
                &&& final(self).pos() == old(self).pos()
            },
    ;

    /// Pack and return a vector holding the remaining elements in its first
    /// lanes and padding in the rest, jumping the cursor straight to the end;
    /// or return `None` if the cursor already stands at the end. A productive
    /// call therefore happens at most once per pass, and any later call is a
    /// no-op returning `None`.
    fn next_partial(&mut self, default: Self::Vector) -> (r: Option<Self::Vector>)
        requires
            old(self).wf(),
            old(self).scalars().len() <= old(self).pos()
                + <Self::Vector as Packed>::width_spec(),
        ensures
            final(self).wf(),
            final(self).scalars() == old(self).scalars(),
            forall|d: Seq<Self::Scalar>, k: nat|
                #[trigger] final(self).fill_lanes(d, k) == old(self).fill_lanes(d, k),
            old(self).pos() < old(self).scalars().len() ==> {
                &&& r.is_some()
                &&& r.unwrap().lanes() == old(self).scalars().subrange(
                    old(self).pos() as int,
                    old(self).scalars().len() as int,
                ) + old(self).fill_lanes(
                    default.lanes(),
                    (old(self).scalars().len() - old(self).pos()) as nat,
                )
                &&& final(self).pos() == old(self).scalars().len()
            },
            old(self).pos() >= old(self).scalars().len() ==> {
                &&& r.is_none()
                &&& final(self).pos() == old(self).pos()
            },
    ;

    /// Wrap this iterator and a lanewise transform into a map combinator.
    /// Nothing is evaluated eagerly: the transform runs as vectors are
    /// pulled. The combinator's own model (its sequence, position, and
    /// well-formedness) is determined by the two fields pinned here.
    fn simd_map<F: PackedTransform<Self::Vector>>(self, func: F) -> (r: PackedMap<Self, F>)
        ensures
            r.iter == self,
            r.func == func,
    {
        PackedMap { iter: self, func }
    }

    /// Fold `func` over accumulator `start` and the vectors of this iterator.
    ///
    /// Law (reduce composition): the result equals folding the step function
    /// left-to-right over exactly the vectors that exhaustive `next_vector`
    /// calls followed by at most one `next_partial(default)` call would
    /// produce — no vector is reordered or skipped, and on an exhausted or
    /// empty iterator the result is `start` itself. After folding the partial
    /// vector, a second `next_partial` is attempted as a defensive check of
    /// the one-partial invariant; its result is proven to be `None`.
    fn simd_reduce<A, F: PackedFold<A, Self::Vector>>(
        &mut self,
        start: A,
        default: Self::Vector,
        func: &F,
    ) -> (r: A)
        requires
            old(self).wf(),
        ensures
            final(self).wf(),
            final(self).scalars() == old(self).scalars(),
            final(self).pos() == old(self).scalars().len(),
            r == fold_lanes(
                *func,
                start,
                chunk_lanes(
                    old(self).scalars(),
                    old(self).pos(),
                    <Self::Vector as Packed>::width_spec(),
                    |k: nat| old(self).fill_lanes(default.lanes(), k),
                ),
            ),
    {
        let ghost w = <Self::Vector as Packed>::width_spec();
        let ghost fillf = (|k: nat| old(self).fill_lanes(default.lanes(), k));
        let ghost target = fold_lanes(
            *func,
            start,
            chunk_lanes(old(self).scalars(), old(self).pos(), w, fillf),
        );
        proof {
            self.wf_facts();
            default.lanes_len();
        }
        let mut acc = start;
        let mut go = true;
        while go
            invariant
                self.wf(),
                self.pos() <= self.scalars().len(),
                self.scalars() == old(self).scalars(),
                w == <Self::Vector as Packed>::width_spec(),
                w >= 1,
                forall|d: Seq<Self::Scalar>, k: nat|
                    #[trigger] self.fill_lanes(d, k) == old(self).fill_lanes(d, k),
                fold_lanes(*func, acc, chunk_lanes(self.scalars(), self.pos(), w, fillf))
                    == target,
                !go ==> self.pos() + w > self.scalars().len(),
            decreases self.scalars().len() - self.pos() + (if go {
                1int
            } else {
                0int
            }),
        {
            let ghost pre = *self;
            match self.next_vector() {
                Some(v) => {
                    proof {
                        let chunks = chunk_lanes(pre.scalars(), pre.pos(), w, fillf);
                        let rest = chunk_lanes(pre.scalars(), (pre.pos() + w) as nat, w, fillf);
                        assert(chunks[0] == v.lanes());
                        assert(chunks.subrange(1, chunks.len() as int) =~= rest);
                        self.wf_facts();
                    }
                    acc = func.fold(acc, v);
                },
                None => {
                    go = false;
                },
            }
        }
        let ghost before_partial = *self;
        match self.next_partial(default) {
            Some(v) => {
                proof {
                    let chunks = chunk_lanes(
                        before_partial.scalars(),
                        before_partial.pos(),
                        w,
                        fillf,
                    );
                    assert(chunks[0] == v.lanes());
                    assert(chunks.subrange(1, chunks.len() as int) =~= Seq::<
                        Seq<Self::Scalar>,
                    >::empty());
                    self.wf_facts();
                }
                acc = func.fold(acc, v);
                proof {
                    assert(chunk_lanes(self.scalars(), self.pos(), w, fillf) =~= Seq::<
                        Seq<Self::Scalar>,
                    >::empty());
                }
            },
            None => {
                proof {
                    self.wf_facts();
                }
            },
        }
        let again = self.next_partial(default);
        proof {
            assert(again.is_none());
            assert(chunk_lanes(self.scalars(), self.pos(), w, fillf) =~= Seq::<
                Seq<Self::Scalar>,
            >::empty());
            assert(fold_lanes(*func, acc, chunk_lanes(self.scalars(), self.pos(), w, fillf))
                == acc);
        }
        acc
    }
}

/// A packed iterator walking a borrowed contiguous scalar buffer.
#[derive(Debug)]
pub struct PackedIter<'a, T: Packable> {
    pub position: usize,
    pub data: &'a [T],
}

impl<'a, T: Packable> PackedIterator for PackedIter<'a, T> {
    type Scalar = T;

    type Vector = T::Vector;

    open spec fn scalars(&self) -> Seq<T> {
        self.data@
    }

    open spec fn pos(&self) -> nat {
        self.position as nat
    }

    open spec fn wf(&self) -> bool {
        self.position <= self.data@.len()
    }

    /// The partial vector of a slice-backed iterator is padded with the
    /// corresponding lanes of the supplied default vector.
    open spec fn fill_lanes(&self, default_lanes: Seq<T>, present: nat) -> Seq<T> {
        default_lanes.subrange(present as int, <T::Vector as Packed>::width_spec() as int)
    }

    proof fn wf_facts(&self) {
    }

    proof fn fill_lanes_len(&self, default_lanes: Seq<T>, present: nat) {
    }

    fn width(&self) -> (w: usize) {
        <T::Vector as Packed>::width()
    }

    fn scalar_len(&self) -> (n: usize) {
        self.data.len()
    }

    fn scalar_position(&self) -> (p: usize) {
        self.position
    }

    fn len(&self) -> (n: usize) {
        self.data.len()
    }

    fn size_hint(&self) -> (h: (usize, Option<usize>)) {
        let remaining = self.data.len() - self.position;
        (remaining, Some(remaining))
    }

    fn next(&mut self) -> (r: Option<T>) {
        if self.position < self.data.len() {
            let v = *slice_index_get(self.data, self.position);
            self.position = self.position + 1;
            Some(v)
        } else {
            None
        }
    }

    fn next_vector(&mut self) -> (r: Option<T::Vector>) {
        let w = <T::Vector as Packed>::width();
        let n = self.data.len();
        if n - self.position >= w {
            let v = <T::Vector as Packed>::load(self.data, self.position);
            self.position = self.position + w;
            Some(v)
        } else {
            None
        }
    }

    fn next_partial(&mut self, default: T::Vector) -> (r: Option<T::Vector>) {
        let n = self.data.len();
        if self.position < n {
            let k = n - self.position;
            let mut ret = default;
            let mut i: usize = 0;
            proof {
                default.lanes_len();
            }
            while i < k
                invariant
                    i <= k,
                    1 <= k <= <T::Vector as Packed>::width_spec(),
                    n == self.data@.len(),
                    self.position + k == n,
                    ret.lanes().len() == <T::Vector as Packed>::width_spec(),
                    forall|j: int| 0 <= j < i ==> #[trigger] ret.lanes()[j]
                        == self.data@[self.position + j],
                    forall|j: int| i <= j < ret.lanes().len() ==> #[trigger] ret.lanes()[j]
                        == default.lanes()[j],
                decreases k - i,
            {
                let s = *slice_index_get(self.data, self.position + i);
                ret = ret.replace(i, s);
                i = i + 1;
            }
            proof {
                assert(ret.lanes() =~= self.data@.subrange(self.position as int, n as int)
                    + self.fill_lanes(default.lanes(), k as nat));
            }
            self.position = n;
            Some(ret)
        } else {
            None
        }
    }
}

/// A lanewise transform from one vector type to another: applying the
/// transform to a vector applies one scalar function to every lane.
pub trait PackedTransform<VI: Packed>: Sized {
    /// The output vector type.
    type Output: Packed;

    /// The scalar function the transform applies to each lane.
    spec fn scalar_map(&self, s: VI::Scalar) -> <Self::Output as Packed>::Scalar;

    /// Apply the transform to every lane of `v`.
    fn apply(&self, v: VI) -> (r: Self::Output)
        requires
            <VI as Packed>::width_spec() == <Self::Output as Packed>::width_spec(),
        ensures
            r.lanes() == v.lanes().map_values(|s: VI::Scalar| self.scalar_map(s)),
    ;
}

/// The transform that returns its input unchanged.
#[derive(Debug)]
pub struct IdentityTransform<V> {
    pub marker: core::marker::PhantomData<V>,
}

impl<V: Packed> IdentityTransform<V> {
    /// Build the identity transform.
    pub fn new() -> (r: Self)
        ensures
            r.marker == core::marker::PhantomData::<V>,
    {
        IdentityTransform { marker: core::marker::PhantomData }
    }
}

impl<V: Packed> PackedTransform<V> for IdentityTransform<V> {
    type Output = V;

    open spec fn scalar_map(&self, s: V::Scalar) -> V::Scalar {
        s
    }

    fn apply(&self, v: V) -> (r: V) {
        proof {
            assert(v.lanes() =~= v.lanes().map_values(|s: V::Scalar| self.scalar_map(s)));
        }
        v
    }
}

/// A sample lanewise transform over four-lane `u32` vectors: combine every
/// lane with a fixed mask by exclusive or.
#[derive(Debug)]
pub struct XorTransform {
    pub mask: u32,
}

impl PackedTransform<U32x4> for XorTransform {
    type Output = U32x4;

    open spec fn scalar_map(&self, s: u32) -> u32 {
        s ^ self.mask
    }

    fn apply(&self, v: U32x4) -> (r: U32x4) {
        let r = U32x4 {
            l0: v.l0 ^ self.mask,
            l1: v.l1 ^ self.mask,
            l2: v.l2 ^ self.mask,
            l3: v.l3 ^ self.mask,
        };
        proof {
            assert(r.lanes() =~= v.lanes().map_values(|s: u32| self.scalar_map(s)));
        }
        r
    }
}

/// A packed iterator that applies a lanewise transform to every vector pulled
/// from an inner packed iterator. It has no position of its own: all
/// accounting delegates to the inner iterator.
#[derive(Debug)]
pub struct PackedMap<I, F> {
    pub iter: I,
    pub func: F,
}

impl<I, F> PackedIterator for PackedMap<I, F> where
    I: PackedIterator,
    F: PackedTransform<I::Vector>,
 {
    type Scalar = <<F as PackedTransform<<I as PackedIterator>::Vector>>::Output as Packed>::Scalar;

    type Vector = <F as PackedTransform<<I as PackedIterator>::Vector>>::Output;

    open spec fn scalars(&self) -> Seq<Self::Scalar> {
        self.iter.scalars().map_values(
            |s: <I as PackedIterator>::Scalar| self.func.scalar_map(s),
        )
    }

    open spec fn pos(&self) -> nat {
        self.iter.pos()
    }

    open spec fn wf(&self) -> bool {
        &&& self.iter.wf()
        &&& <<I as PackedIterator>::Vector as Packed>::width_spec()
            == <Self::Vector as Packed>::width_spec()
    }

    /// The inner iterator is padded from a default-constructed inner vector,
    /// so the mapped partial vector is padded with the transform of the inner
    /// padding.
    open spec fn fill_lanes(&self, default_lanes: Seq<Self::Scalar>, present: nat) -> Seq<
        Self::Scalar,
    > {
        self.iter.fill_lanes(
            Seq::new(
                <<I as PackedIterator>::Vector as Packed>::width_spec(),
                |i: int| <<I as PackedIterator>::Vector as Packed>::default_lane(),
            ),
            present,
        ).map_values(|s: <I as PackedIterator>::Scalar| self.func.scalar_map(s))
    }

    proof fn wf_facts(&self) {
        self.iter.wf_facts();
    }

    proof fn fill_lanes_len(&self, default_lanes: Seq<Self::Scalar>, present: nat) {
        self.iter.fill_lanes_len(
            Seq::new(
                <<I as PackedIterator>::Vector as Packed>::width_spec(),
                |i: int| <<I as PackedIterator>::Vector as Packed>::default_lane(),
            ),
            present,
        );
    }

    fn width(&self) -> (w: usize) {
        <Self::Vector as Packed>::width()
    }

    fn scalar_len(&self) -> (n: usize) {
        self.iter.scalar_len()
    }

    fn scalar_position(&self) -> (p: usize) {
        self.iter.scalar_position()
    }

    fn len(&self) -> (n: usize) {
        self.iter.len()
    }

    fn size_hint(&self) -> (h: (usize, Option<usize>)) {
        self.iter.size_hint()
    }

    fn next(&mut self) -> (r: Option<Self::Scalar>) {
        match self.iter.next() {
            Some(s) => {
                let v = <<I as PackedIterator>::Vector as Packed>::splat(s);
                let out = self.func.apply(v);
                proof {
                    out.lanes_len();
                    v.lanes_len();
                    assert forall|i: int| 0 <= i < out.lanes().len() implies #[trigger] out.lanes()[i]
                        == out.lanes()[0] by {
                        assert(v.lanes()[i] == s);
                        assert(v.lanes()[0] == s);
                    }
                }
                Some(out.coalesce())
            },
            None => None,
        }
    }

    fn next_vector(&mut self) -> (r: Option<Self::Vector>) {
        let ghost pre = *self;
        match self.iter.next_vector() {
            Some(v) => {
                let out = self.func.apply(v);
                proof {
                    assert(out.lanes() =~= pre.scalars().subrange(
                        pre.pos() as int,
                        (pre.pos() + <Self::Vector as Packed>::width_spec()) as int,
                    ));
                }
                Some(out)
            },
            None => None,
        }
    }

    fn next_partial(&mut self, default: Self::Vector) -> (r: Option<Self::Vector>) {
        let ghost pre = *self;
        let d = <<I as PackedIterator>::Vector as Packed>::default_vec();
        match self.iter.next_partial(d) {
            Some(v) => {
                let out = self.func.apply(v);
                proof {
                    let k = (pre.scalars().len() - pre.pos()) as nat;
                    pre.iter.wf_facts();
                    pre.iter.fill_lanes_len(d.lanes(), k);
                    assert(out.lanes() =~= pre.scalars().subrange(
                        pre.pos() as int,
                        pre.scalars().len() as int,
                    ) + pre.fill_lanes(default.lanes(), k));
                }
                Some(out)
            },
            None => None,
        }
    }
}

/// Law (round trip): under the identity transform a mapped iterator presents
/// exactly the scalar sequence of its inner iterator, at the same position.
/// Together with the postcondition of `scalar_collect`, collecting a fresh
/// identity-mapped iterator therefore rebuilds the source sequence exactly,
/// whatever the vector width.
pub proof fn lemma_identity_round_trip<I: PackedIterator>(
    m: PackedMap<I, IdentityTransform<<I as PackedIterator>::Vector>>,
)
    ensures
        m.scalars() == m.iter.scalars(),
        m.pos() == m.iter.pos(),
{
    assert(m.scalars() =~= m.iter.scalars());
}

/// Law (map transparency): a mapped iterator reports the same scalar length
/// and the same scalar position as its inner iterator, in every state.
pub proof fn lemma_map_transparent<I, F>(m: PackedMap<I, F>) where
    I: PackedIterator,
    F: PackedTransform<I::Vector>,

    ensures
        m.scalars().len() == m.iter.scalars().len(),
        m.pos() == m.iter.pos(),
{
}

/// Wrap an owned value into a packed iterator over its scalar sequence.
pub trait IntoPackedIterator: Sized {
    /// The packed iterator produced.
    type Iter: PackedIterator;

    /// The scalar sequence the produced iterator will range over.
    spec fn into_scalars(self) -> Seq<<Self::Iter as PackedIterator>::Scalar>;

    /// Return a fresh packed iterator over this data.
    fn into_simd_iter(self) -> (r: Self::Iter)
        ensures
            r.wf(),
            r.pos() == 0,
            r.scalars() == self.into_scalars(),
    ;
}

impl<'a, T: Packable> IntoPackedIterator for &'a [T] {
    type Iter = PackedIter<'a, T>;

    open spec fn into_scalars(self) -> Seq<T> {
        self@
    }

    fn into_simd_iter(self) -> (r: PackedIter<'a, T>) {
        PackedIter { position: 0, data: self }
    }
}

/// Wrap a read-only borrow into a packed iterator without copying.
pub trait IntoPackedRefIterator<'a> {
    /// The packed iterator produced.
    type Iter: PackedIterator;

    /// The scalar sequence the produced iterator will range over.
    spec fn ref_scalars(&'a self) -> Seq<<Self::Iter as PackedIterator>::Scalar>;

    /// Return a fresh packed iterator borrowing this data.
    fn simd_iter(&'a self) -> (r: Self::Iter)
        ensures
            r.wf(),
            r.pos() == 0,
            r.scalars() == self.ref_scalars(),
    ;
}

impl<'a, T: Packable + 'a> IntoPackedRefIterator<'a> for [T] {
    type Iter = PackedIter<'a, T>;

    open spec fn ref_scalars(&'a self) -> Seq<T> {
        self@
    }

    fn simd_iter(&'a self) -> (r: PackedIter<'a, T>) {
        PackedIter { position: 0, data: self }
    }
}

/// Wrap an exclusive borrow into a packed iterator without copying.
pub trait IntoPackedRefMutIterator<'a> {
    /// The packed iterator produced.
    type Iter: PackedIterator;

    /// The scalar sequence the produced iterator will range over.
    spec fn ref_mut_scalars(&self) -> Seq<<Self::Iter as PackedIterator>::Scalar>;

    /// Return a fresh packed iterator borrowing this data.
    fn simd_iter_mut(&'a mut self) -> (r: Self::Iter)
        ensures
            r.wf(),
            r.pos() == 0,
            r.scalars() == old(self).ref_mut_scalars(),
    ;
}

impl<'a, T: Packable + 'a> IntoPackedRefMutIterator<'a> for [T] {
    type Iter = PackedIter<'a, T>;

    open spec fn ref_mut_scalars(&self) -> Seq<T> {
        self@
    }

    fn simd_iter_mut(&'a mut self) -> (r: PackedIter<'a, T>) {
        PackedIter { position: 0, data: self }
    }
}

} // verus!
