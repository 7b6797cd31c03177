//! The vector capability on the concrete lane types: load, store, splat,
//! per-lane access, the neutral vector, and coalescing.

use faster::vecs::Packed;
use faster::vecs::U32x4;
use faster::vecs::U64x2;

#[test]
fn splat_fills_every_lane() {
    let v = U32x4::splat(17);
    assert_eq!((v.l0, v.l1, v.l2, v.l3), (17, 17, 17, 17));
    assert_eq!(U32x4::width(), 4);
    assert_eq!(U64x2::width(), 2);
}

#[test]
fn load_reads_contiguous_scalars_at_offset() {
    let data: Vec<u32> = vec![1, 2, 3, 4, 5, 6];
    let v = U32x4::load(data.as_slice(), 2);
    assert_eq!((v.l0, v.l1, v.l2, v.l3), (3, 4, 5, 6));
}

#[test]
fn store_writes_lanes_and_leaves_the_rest() {
    let v = U32x4 { l0: 9, l1: 8, l2: 7, l3: 6 };
    let mut out: Vec<u32> = vec![0; 6];
    v.store(&mut out, 1);
    assert_eq!(out, vec![0, 9, 8, 7, 6, 0]);
}

#[test]
fn extract_and_replace_touch_one_lane() {
    let v = U32x4 { l0: 10, l1: 20, l2: 30, l3: 40 };
    assert_eq!(v.extract(0), 10);
    assert_eq!(v.extract(3), 40);
    let w = v.replace(2, 99);
    assert_eq!((w.l0, w.l1, w.l2, w.l3), (10, 20, 99, 40));
    assert_eq!(v.extract(2), 30);
}

#[test]
fn default_vector_is_neutral_and_coalesce_projects() {
    let z = U32x4::default_vec();
    assert_eq!((z.l0, z.l1, z.l2, z.l3), (0, 0, 0, 0));
    assert_eq!(U32x4::splat(5).coalesce(), 5);
    let d = U64x2::default_vec();
    assert_eq!((d.l0, d.l1), (0, 0));
    assert_eq!(U64x2::splat(6).coalesce(), 6);
}
