//! Round trips through the map combinator and the conversion adapters: an
//! identity-mapped collect rebuilds the source exactly, for widths that do
//! and do not divide the length.

use faster::collect::IntoScalar;
use faster::iters::IdentityTransform;
use faster::iters::IntoPackedIterator;
use faster::iters::IntoPackedRefIterator;
use faster::iters::IntoPackedRefMutIterator;
use faster::iters::PackedIterator;
use faster::iters::XorTransform;
use faster::vecs::Packed;
use faster::vecs::U32x4;
use faster::vecs::U64x2;

fn round_trip_u32(data: &[u32]) -> Vec<u32> {
    let it = data.simd_iter();
    let mut mapped = it.simd_map(IdentityTransform::<U32x4>::new());
    mapped.scalar_collect()
}

#[test]
fn identity_round_trip_all_lengths_width_four() {
    for len in [0usize, 1, 3, 4, 5, 7, 8, 10, 13] {
        let data: Vec<u32> = (0..len as u32).map(|i| 1000 + 7 * i).collect();
        assert_eq!(round_trip_u32(data.as_slice()), data);
    }
}

#[test]
fn identity_round_trip_width_two() {
    for len in [0usize, 1, 2, 3, 5, 6] {
        let data: Vec<u64> = (0..len as u64).map(|i| 55 + 11 * i).collect();
        let it = data.as_slice().simd_iter();
        let mut mapped = it.simd_map(IdentityTransform::<U64x2>::new());
        assert_eq!(mapped.scalar_collect(), data);
    }
}

#[test]
fn xor_map_transforms_every_element() {
    let data: Vec<u32> = vec![0, 1, 2, 3, 4, 5, 6, 7, 8, 9, 10];
    let it = data.as_slice().simd_iter();
    let mut mapped = it.simd_map(XorTransform { mask: 0xffff_0000 });
    let out = mapped.scalar_collect();
    let expected: Vec<u32> = data.iter().map(|v| v ^ 0xffff_0000).collect();
    assert_eq!(out, expected);
}

#[test]
fn map_delegates_length_and_position() {
    let data: Vec<u32> = vec![9, 8, 7, 6, 5, 4, 3, 2, 1];
    let it = data.as_slice().simd_iter();
    let mut mapped = it.simd_map(XorTransform { mask: 1 });
    assert_eq!(mapped.scalar_len(), 9);
    assert_eq!(mapped.scalar_position(), 0);
    assert!(mapped.next_vector().is_some());
    assert_eq!(mapped.scalar_position(), 4);
    assert_eq!(mapped.iter.scalar_position(), 4);
    assert!(mapped.next_vector().is_some());
    assert_eq!(mapped.scalar_position(), mapped.iter.scalar_position());
    assert!(mapped.next_partial(U32x4::splat(0)).is_some());
    assert_eq!(mapped.scalar_position(), 9);
    assert_eq!(mapped.scalar_len(), mapped.iter.scalar_len());
}

#[test]
fn map_scalar_mode_applies_transform_per_element() {
    let data: Vec<u32> = vec![10, 20, 30];
    let it = data.as_slice().simd_iter();
    let mut mapped = it.simd_map(XorTransform { mask: 0b101 });
    assert_eq!(mapped.next(), Some(10 ^ 0b101));
    assert_eq!(mapped.next(), Some(20 ^ 0b101));
    assert_eq!(mapped.next(), Some(30 ^ 0b101));
    assert_eq!(mapped.next(), None);
}

#[test]
fn map_partial_is_padded_from_the_inner_default() {
    let data: Vec<u32> = vec![41, 42];
    let it = data.as_slice().simd_iter();
    let mut mapped = it.simd_map(XorTransform { mask: 0xff });
    let p = mapped.next_partial(U32x4::splat(77)).unwrap();
    // The inner padding is the neutral scalar, transformed.
    assert_eq!((p.l0, p.l1, p.l2, p.l3), (41 ^ 0xff, 42 ^ 0xff, 0xff, 0xff));
}

#[test]
fn scalar_fill_writes_prefix_and_keeps_tail() {
    let data: Vec<u32> = vec![5, 6, 7, 8, 9];
    let mut it = data.as_slice().simd_iter();
    let mut buffer: Vec<u32> = vec![111; 8];
    it.scalar_fill(&mut buffer);
    assert_eq!(buffer, vec![5, 6, 7, 8, 9, 111, 111, 111]);
}

#[test]
fn adapters_all_start_fresh() {
    let mut data: Vec<u32> = vec![1, 2, 3, 4, 5, 6];
    let mut a = data.as_slice().into_simd_iter();
    assert_eq!(a.scalar_position(), 0);
    assert_eq!(a.scalar_collect(), data);
    let mut b = data.as_slice().simd_iter();
    assert_eq!(b.scalar_collect(), vec![1, 2, 3, 4, 5, 6]);
    let mut c = data.as_mut_slice().simd_iter_mut();
    assert_eq!(c.scalar_position(), 0);
    assert_eq!(c.scalar_collect(), vec![1, 2, 3, 4, 5, 6]);
}
