use groupy::CurveAffine;
use paired::bls12_381::{G1Affine, G2Affine};
use pairing_compat::{
    check_encoding, compute_test_vector, get_test_vectors, run_compat, verify_all,
    verify_test_vector, CompatError, CompatFailure, Group, TestVector, VectorSource, G1_LEN,
    G2_LEN, GT_LEN,
};
use rand_chacha::ChaCha20Rng;
use rand_core::SeedableRng;

#[test]
fn test_compat() {
    let mut rng = ChaCha20Rng::seed_from_u64(0u64);

    // Generate and verify a test vector using the current backend
    let v1 = compute_test_vector(&mut rng).unwrap();
    assert_eq!(verify_test_vector(&v1), Ok(()));

    // Retrieve test vectors generated with each backend and verify
    // them using the current backend
    let vecs = get_test_vectors();
    for vec in vecs {
        assert_eq!(verify_test_vector(&vec), Ok(()));
    }
}

#[test]
fn generated_vectors_pass_for_several_seeds() {
    for seed in [0u64, 1, 2, 42, 1000] {
        let mut rng = ChaCha20Rng::seed_from_u64(seed);
        for _ in 0..2 {
            let v = compute_test_vector(&mut rng).unwrap();
            assert_eq!(v.g1.len(), G1_LEN);
            assert_eq!(v.g2.len(), G2_LEN);
            assert_eq!(v.gt.len(), GT_LEN);
            assert_eq!(verify_test_vector(&v), Ok(()));
        }
    }
}

#[test]
fn generation_is_deterministic() {
    let mut a = ChaCha20Rng::seed_from_u64(7);
    let mut b = ChaCha20Rng::seed_from_u64(7);
    let va1 = compute_test_vector(&mut a).unwrap();
    let va2 = compute_test_vector(&mut a).unwrap();
    let vb1 = compute_test_vector(&mut b).unwrap();
    let vb2 = compute_test_vector(&mut b).unwrap();
    assert!(va1 == vb1);
    assert!(va2 == vb2);
    assert!(va1 != va2);
}

#[test]
fn different_seeds_give_different_vectors() {
    let mut a = ChaCha20Rng::seed_from_u64(0);
    let mut b = ChaCha20Rng::seed_from_u64(1);
    let va = compute_test_vector(&mut a).unwrap();
    let vb = compute_test_vector(&mut b).unwrap();
    assert!(va != vb);
    assert_ne!(va.g1, vb.g1);
}

#[test]
fn fixed_table_has_compressed_lengths() {
    let vecs = get_test_vectors();
    assert_eq!(vecs.len(), 2);
    for v in &vecs {
        assert_eq!(v.g1.len(), 48);
        assert_eq!(v.g2.len(), 96);
        assert_eq!(v.gt.len(), 288);
    }
    assert_eq!(vecs[0].g1[0], 185);
    assert_eq!(vecs[1].g1[0], 182);
    assert_eq!(vecs[1].gt[287], 7);
}

#[test]
fn every_fixed_vector_is_accepted() {
    assert_eq!(verify_all(&get_test_vectors()), Ok(()));
}

#[test]
fn whole_check_passes_for_seed_zero() {
    assert_eq!(run_compat(0), Ok(()));
}

#[test]
fn corrupted_gt_byte_is_a_mismatch() {
    let mut vecs = get_test_vectors();
    vecs[0].gt[10] ^= 0x01;
    assert_eq!(verify_test_vector(&vecs[0]), Err(CompatError::Mismatch));
    assert_eq!(verify_all(&vecs), Err((0, CompatError::Mismatch)));
    assert_eq!(verify_test_vector(&vecs[1]), Ok(()));
}

#[test]
fn corruption_of_second_entry_is_reported_at_its_index() {
    let mut vecs = get_test_vectors();
    vecs[1].gt[0] = vecs[1].gt[0].wrapping_add(1);
    assert_eq!(verify_all(&vecs), Err((1, CompatError::Mismatch)));
}

#[test]
fn flipped_bits_are_never_silently_accepted() {
    let base = get_test_vectors();
    for bit in [0usize, 1, 2, 7, 100, 200, 383] {
        let mut v = base[1].clone();
        v.g1[bit / 8] ^= 1u8 << (bit % 8);
        let r = verify_test_vector(&v);
        assert!(
            r == Err(CompatError::Decode(Group::G1))
                || r == Err(CompatError::Mismatch)
                || r == Err(CompatError::Pairing)
        );
        let mut w = base[1].clone();
        w.g2[bit / 8] ^= 1u8 << (bit % 8);
        let r = verify_test_vector(&w);
        assert!(
            r == Err(CompatError::Decode(Group::G2))
                || r == Err(CompatError::Mismatch)
                || r == Err(CompatError::Pairing)
        );
        let mut x = base[1].clone();
        x.gt[bit / 8] ^= 1u8 << (bit % 8);
        assert_eq!(verify_test_vector(&x), Err(CompatError::Mismatch));
    }
}

#[test]
fn clearing_the_compression_flag_is_a_decode_failure() {
    let mut v = get_test_vectors()[0].clone();
    v.g1[0] &= 0x7f;
    assert_eq!(verify_test_vector(&v), Err(CompatError::Decode(Group::G1)));
    let mut w = get_test_vectors()[0].clone();
    w.g2[0] &= 0x7f;
    assert_eq!(verify_test_vector(&w), Err(CompatError::Decode(Group::G2)));
}

#[test]
fn wrong_lengths_are_decode_failures() {
    let base = get_test_vectors()[1].clone();
    let mut v = base.clone();
    v.g1.pop();
    assert_eq!(verify_test_vector(&v), Err(CompatError::Decode(Group::G1)));
    let mut v = base.clone();
    v.g1.push(0);
    assert_eq!(verify_test_vector(&v), Err(CompatError::Decode(Group::G1)));
    let mut v = base.clone();
    v.g2.truncate(48);
    assert_eq!(verify_test_vector(&v), Err(CompatError::Decode(Group::G2)));
    let mut v = base.clone();
    v.g1.clear();
    v.g2.clear();
    assert_eq!(verify_test_vector(&v), Err(CompatError::Decode(Group::G1)));
    let mut v = base.clone();
    v.gt.pop();
    assert_eq!(verify_test_vector(&v), Err(CompatError::Mismatch));
}

#[test]
fn swapped_entries_do_not_verify() {
    let vecs = get_test_vectors();
    let mixed = TestVector::new(vecs[0].g1.clone(), vecs[0].g2.clone(), vecs[1].gt.clone());
    assert_eq!(verify_test_vector(&mixed), Err(CompatError::Mismatch));
}

#[test]
fn point_at_infinity_has_no_compressed_pairing() {
    let mut g1 = vec![0u8; 48];
    g1[0] = 0xc0;
    let v = TestVector::new(g1, get_test_vectors()[0].g2.clone(), vec![0u8; 288]);
    assert_eq!(verify_test_vector(&v), Err(CompatError::Pairing));
}

#[test]
fn check_encoding_compares_bytes() {
    assert_eq!(check_encoding(&vec![1, 2, 3], &vec![1, 2, 3]), Ok(()));
    assert_eq!(check_encoding(&vec![], &vec![]), Ok(()));
    assert_eq!(check_encoding(&vec![1, 2, 3], &vec![1, 2, 4]), Err(CompatError::Mismatch));
    assert_eq!(check_encoding(&vec![1, 2], &vec![1, 2, 3]), Err(CompatError::Mismatch));
}

#[test]
fn failure_carries_its_source() {
    let f = CompatFailure { source: VectorSource::Fixed(1), error: CompatError::Mismatch };
    assert_eq!(f.source, VectorSource::Fixed(1));
    assert_ne!(f.source, VectorSource::Generated);
}

#[test]
fn assembled_generators_pass_the_verifier() {
    let p = G1Affine::one();
    let q = G2Affine::one();
    let v = pairing_compat::assemble_vector(&p, &q).unwrap();
    assert_eq!(v.g1, p.into_compressed().as_ref().to_vec());
    assert_eq!(v.g2, q.into_compressed().as_ref().to_vec());
    assert_eq!(v.gt.len(), GT_LEN);
    assert_eq!(verify_test_vector(&v), Ok(()));
}

#[test]
fn assembling_with_the_identity_is_a_pairing_failure() {
    assert!(pairing_compat::assemble_vector(&G1Affine::zero(), &G2Affine::one()).is_err());
    assert_eq!(
        pairing_compat::assemble_vector(&G1Affine::one(), &G2Affine::zero()).err(),
        Some(CompatError::Pairing)
    );
}

#[test]
fn cloned_generator_state_gives_the_same_vector() {
    let mut a = ChaCha20Rng::seed_from_u64(3);
    let _ = compute_test_vector(&mut a).unwrap();
    let mut b = a.clone();
    let va = compute_test_vector(&mut a).unwrap();
    let vb = compute_test_vector(&mut b).unwrap();
    assert!(va == vb);
}
