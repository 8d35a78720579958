use wrapper::field_bytes::{write_points_be, write_u64_be, FieldRepr, G1Coordinates};
use wrapper::vk_hash::{
    calculate_verification_key_hash, encode_verification_key, VkCommitments, VkShapeError,
    VK_HASH_PREIMAGE_LEN,
};

fn hex(bytes: &[u8]) -> String {
    bytes.iter().map(|b| format!("{:02x}", b)).collect()
}

fn point(n: u64) -> G1Coordinates {
    G1Coordinates {
        x: FieldRepr { limbs: [n, 0, 0, 1u64 << 63] },
        y: FieldRepr { limbs: [u64::MAX - n, n << 8, 0, 0x0123456789abcdef] },
    }
}

fn zero_point() -> G1Coordinates {
    G1Coordinates { x: FieldRepr::zero(), y: FieldRepr::zero() }
}

fn numbered_vk() -> VkCommitments {
    VkCommitments {
        gate_setup_commitments: (0..8).map(point).collect(),
        gate_selectors_commitments: (8..10).map(point).collect(),
        permutation_commitments: (10..14).map(point).collect(),
        lookup_selector_commitment: Some(point(14)),
        lookup_tables_commitments: (15..19).map(point).collect(),
        lookup_table_type_commitment: Some(point(19)),
    }
}

fn zero_vk() -> VkCommitments {
    VkCommitments {
        gate_setup_commitments: vec![zero_point(); 8],
        gate_selectors_commitments: vec![zero_point(); 2],
        permutation_commitments: vec![zero_point(); 4],
        lookup_selector_commitment: Some(zero_point()),
        lookup_tables_commitments: vec![zero_point(); 4],
        lookup_table_type_commitment: Some(zero_point()),
    }
}

#[test]
fn u64_is_written_big_endian() {
    let mut out = vec![0xaa];
    write_u64_be(&mut out, 0x0102030405060708);
    assert_eq!(out, vec![0xaa, 1, 2, 3, 4, 5, 6, 7, 8]);
}

#[test]
fn field_repr_is_written_most_significant_limb_first() {
    let r = FieldRepr { limbs: [1, 2, 3, 0xff00000000000000] };
    let mut out = Vec::new();
    r.write_be(&mut out);
    let mut expected = vec![0xff, 0, 0, 0, 0, 0, 0, 0];
    expected.extend_from_slice(&[0, 0, 0, 0, 0, 0, 0, 3]);
    expected.extend_from_slice(&[0, 0, 0, 0, 0, 0, 0, 2]);
    expected.extend_from_slice(&[0, 0, 0, 0, 0, 0, 0, 1]);
    assert_eq!(out, expected);
}

#[test]
fn zero_repr_is_thirty_two_zero_bytes() {
    let mut out = Vec::new();
    FieldRepr::zero().write_be(&mut out);
    assert_eq!(out, vec![0u8; 32]);
}

#[test]
fn point_is_x_then_y() {
    let p = point(3);
    let mut out = Vec::new();
    p.write_be(&mut out);
    assert_eq!(out.len(), 64);
    assert_eq!(hex(&out[..16]), "80000000000000000000000000000000");
    let mut x = Vec::new();
    p.x.write_be(&mut x);
    let mut y = Vec::new();
    p.y.write_be(&mut y);
    assert_eq!(&out[..32], &x[..]);
    assert_eq!(&out[32..], &y[..]);
}

#[test]
fn points_are_written_in_order() {
    let pts = vec![point(1), point(2)];
    let mut out = Vec::new();
    write_points_be(&mut out, &pts);
    let mut a = Vec::new();
    point(1).write_be(&mut a);
    point(2).write_be(&mut a);
    assert_eq!(out, a);
}

#[test]
fn preimage_has_fixed_length_and_layout() {
    let vk = numbered_vk();
    let bytes = encode_verification_key(&vk);
    assert_eq!(bytes.len(), VK_HASH_PREIMAGE_LEN);
    assert_eq!(bytes.len(), 1312);
    for n in 0..20u64 {
        let mut p = Vec::new();
        point(n).write_be(&mut p);
        let at = 64 * n as usize;
        assert_eq!(&bytes[at..at + 64], &p[..], "point {}", n);
    }
    assert_eq!(&bytes[1280..], &[0u8; 32][..]);
}

#[test]
fn hash_of_zero_key() {
    let h = calculate_verification_key_hash(zero_vk());
    assert_eq!(
        hex(&h),
        "0a41325bf59895cd1404a5dc0fee338e97218443913e2a35709762115391b7e0"
    );
}

#[test]
fn hash_of_numbered_key() {
    let h = calculate_verification_key_hash(numbered_vk());
    assert_eq!(
        hex(&h),
        "2c485b436b8f07e223553f096a680897c7bc6a72a5bd312228145eb9476787f2"
    );
}

#[test]
fn hash_is_not_the_preimage() {
    let vk = zero_vk();
    let bytes = encode_verification_key(&vk);
    let h = calculate_verification_key_hash(vk);
    assert_ne!(&h[..], &bytes[..32]);
}

#[test]
fn keys_with_other_commitments_have_other_preimages_and_hashes() {
    let a = numbered_vk();
    let mut b = numbered_vk();
    b.permutation_commitments[2].y.limbs[1] ^= 1;
    assert_ne!(encode_verification_key(&a), encode_verification_key(&b));
    assert_ne!(calculate_verification_key_hash(a), calculate_verification_key_hash(b));
}

#[test]
fn shape_of_a_complete_key_is_accepted() {
    assert_eq!(numbered_vk().check_shape(), Ok(()));
}

#[test]
fn shape_errors_name_the_first_wrong_part() {
    let mut vk = numbered_vk();
    vk.gate_setup_commitments.pop();
    vk.lookup_selector_commitment = None;
    assert_eq!(vk.check_shape(), Err(VkShapeError::GateSetupCommitments { found: 7 }));

    let mut vk = numbered_vk();
    vk.gate_selectors_commitments.push(point(1));
    assert_eq!(vk.check_shape(), Err(VkShapeError::GateSelectorsCommitments { found: 3 }));

    let mut vk = numbered_vk();
    vk.permutation_commitments.clear();
    assert_eq!(vk.check_shape(), Err(VkShapeError::PermutationCommitments { found: 0 }));

    let mut vk = numbered_vk();
    vk.lookup_selector_commitment = None;
    vk.lookup_table_type_commitment = None;
    assert_eq!(vk.check_shape(), Err(VkShapeError::MissingLookupSelector));

    let mut vk = numbered_vk();
    vk.lookup_tables_commitments.push(point(0));
    assert_eq!(vk.check_shape(), Err(VkShapeError::LookupTablesCommitments { found: 5 }));

    let mut vk = numbered_vk();
    vk.lookup_table_type_commitment = None;
    assert_eq!(vk.check_shape(), Err(VkShapeError::MissingLookupTableType));
}

#[test]
fn encoding_skips_missing_lookup_commitments() {
    let mut vk = numbered_vk();
    vk.lookup_selector_commitment = None;
    vk.lookup_table_type_commitment = None;
    assert_eq!(encode_verification_key(&vk).len(), 1312 - 128);
}
