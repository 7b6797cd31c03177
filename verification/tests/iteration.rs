//! Stepping behavior of the slice-backed packed iterator: position
//! accounting, the at-most-one partial vector, and the ragged tail.

use faster::collect::IntoScalar;
use faster::iters::IntoPackedRefIterator;
use faster::iters::PackedIterator;
use faster::vecs::Packed;
use faster::vecs::U32x4;
use faster::vecs::U64x2;

#[test]
fn empty_sequence_yields_nothing() {
    let data: Vec<u32> = vec![];
    let mut it = data.as_slice().simd_iter();
    assert_eq!(it.scalar_len(), 0);
    assert!(it.next_vector().is_none());
    assert!(it.next_partial(U32x4::splat(42)).is_none());
    assert_eq!(it.scalar_position(), 0);
    let mut it2 = data.as_slice().simd_iter();
    let collected = it2.scalar_collect();
    assert!(collected.is_empty());
}

#[test]
fn exact_multiple_has_no_spurious_partial() {
    let data: Vec<u32> = vec![10, 11, 12, 13, 14, 15, 16, 17];
    let mut it = data.as_slice().simd_iter();
    let a = it.next_vector().unwrap();
    assert_eq!((a.l0, a.l1, a.l2, a.l3), (10, 11, 12, 13));
    let b = it.next_vector().unwrap();
    assert_eq!((b.l0, b.l1, b.l2, b.l3), (14, 15, 16, 17));
    assert!(it.next_vector().is_none());
    assert_eq!(it.scalar_position(), 8);
    assert!(it.next_partial(U32x4::splat(9)).is_none());
    assert_eq!(it.scalar_position(), 8);
}

#[test]
fn partial_tail_takes_corresponding_default_lanes() {
    let data: Vec<u32> = vec![100, 101, 102, 103, 104, 105, 106, 107, 108, 109];
    let mut it = data.as_slice().simd_iter();
    let a = it.next_vector().unwrap();
    assert_eq!((a.l0, a.l1, a.l2, a.l3), (100, 101, 102, 103));
    let b = it.next_vector().unwrap();
    assert_eq!((b.l0, b.l1, b.l2, b.l3), (104, 105, 106, 107));
    assert!(it.next_vector().is_none());
    let default = U32x4 { l0: 1, l1: 2, l2: 3, l3: 4 };
    let p = it.next_partial(default).unwrap();
    assert_eq!((p.l0, p.l1, p.l2, p.l3), (108, 109, 3, 4));
    assert_eq!(it.scalar_position(), 10);
}

#[test]
fn position_advances_by_width_then_jumps_to_end() {
    let data: Vec<u32> = vec![0, 1, 2, 3, 4, 5, 6, 7, 8, 9];
    let mut it = data.as_slice().simd_iter();
    assert_eq!(it.width(), 4);
    assert_eq!(it.scalar_position(), 0);
    assert!(it.next_vector().is_some());
    assert_eq!(it.scalar_position(), 4);
    assert!(it.next_vector().is_some());
    assert_eq!(it.scalar_position(), 8);
    assert!(it.next_partial(U32x4::splat(0)).is_some());
    assert_eq!(it.scalar_position(), it.scalar_len());
}

#[test]
fn at_most_one_partial_per_pass() {
    let data: Vec<u32> = vec![1, 2, 3, 4, 5];
    let mut it = data.as_slice().simd_iter();
    assert!(it.next_vector().is_some());
    assert!(it.next_partial(U32x4::splat(7)).is_some());
    assert!(it.next_partial(U32x4::splat(7)).is_none());
    assert!(it.next_partial(U32x4::splat(8)).is_none());
    assert!(it.next_vector().is_none());
    assert_eq!(it.scalar_position(), 5);
}

#[test]
fn scalar_stepping_walks_one_element_at_a_time() {
    let data: Vec<u32> = vec![3, 1, 4];
    let mut it = data.as_slice().simd_iter();
    assert_eq!(it.len(), 3);
    assert_eq!(it.size_hint(), (3, Some(3)));
    assert_eq!(it.next(), Some(3));
    assert_eq!(it.next(), Some(1));
    assert_eq!(it.size_hint(), (1, Some(1)));
    assert_eq!(it.next(), Some(4));
    assert_eq!(it.next(), None);
    assert_eq!(it.size_hint(), (0, Some(0)));
}

#[test]
fn two_lane_vectors_step_by_two() {
    let data: Vec<u64> = vec![7, 8, 9];
    let mut it = data.as_slice().simd_iter();
    assert_eq!(it.width(), 2);
    let a = it.next_vector().unwrap();
    assert_eq!((a.l0, a.l1), (7, 8));
    assert!(it.next_vector().is_none());
    let p = it.next_partial(U64x2 { l0: 5, l1: 6 }).unwrap();
    assert_eq!((p.l0, p.l1), (9, 6));
    assert!(it.next_partial(U64x2 { l0: 5, l1: 6 }).is_none());
}

#[test]
fn mixed_mode_drain_after_vectors() {
    let data: Vec<u32> = vec![20, 21, 22, 23, 24, 25, 26, 27, 28, 29];
    let mut it = data.as_slice().simd_iter();
    assert!(it.next_vector().is_some());
    assert!(it.next_vector().is_some());
    let rest = it.scalar_collect();
    assert_eq!(rest.len(), 10);
    assert_eq!(rest[0], 28);
    assert_eq!(rest[1], 29);
    for slot in rest.iter().skip(2) {
        assert_eq!(*slot, 0);
    }
}
