//! Generation and verification of test vectors against the current backend.
use crate::backend::{
    compress_g1, compress_g2, compress_gt, decompress_g1, decompress_g2, final_exp_of,
    final_exponentiation, g1_decodes, g1_drawn, g1_encoding, g1_in_group, g1_point, g2_decodes,
    g2_drawn, g2_encoding, g2_in_group, g2_point, gt_encoding, gt_is_one, is_one, miller_loop,
    miller_of, random_g1, random_g2, rng_after_g1, rng_after_g2, rng_of_seed, seeded_rng, G1_LEN,
    G2_LEN, GT_LEN,
};
use crate::table::{
    blst_g1, blst_g2, blst_gt, get_test_vectors, paired_g1, paired_g2, paired_gt,
};
use paired::bls12_381::{Fq12, G1Affine, G2Affine};
use crate::vector::{bytes_eq, TestVector};
use rand_chacha::ChaCha20Rng;
use vstd::prelude::*;

verus! {

/// The two groups whose points a vector carries.
#[derive(Debug, Clone, Copy, PartialEq, Eq, Structural)]
pub enum Group {
    G1,
    G2,
}

/// The stage at which a vector failed.
#[derive(Debug, Clone, Copy, PartialEq, Eq, Structural)]
pub enum CompatError {
    /// The encoding of a point has the wrong length or does not decompress.
    Decode(Group),
    /// The pairing yields no value with a compressed form.
    Pairing,
    /// The recomputed GT encoding differs from the stored one.
    Mismatch,
}

/// Whether bytes are the compressed encoding of a G1 point.
pub open spec fn g1_valid(b: Seq<u8>) -> bool {
    b.len() == G1_LEN && g1_decodes(b)
}

/// Whether bytes are the compressed encoding of a G2 point.
pub open spec fn g2_valid(b: Seq<u8>) -> bool {
    b.len() == G2_LEN && g2_decodes(b)
}

/// Compares a recomputed GT encoding with a stored one, byte for byte.
pub fn check_encoding(recomputed: &Vec<u8>, stored: &Vec<u8>) -> (r: Result<(), CompatError>)
    ensures
        r == (if recomputed@ == stored@ {
            Ok::<(), CompatError>(())
        } else {
            Err(CompatError::Mismatch)
        }),
{
    if bytes_eq(recomputed, stored) {
        Ok(())
    } else {
        Err(CompatError::Mismatch)
    }
}

/// The pairing of two points in GT, where it has a compressed form: `None`
/// where the final exponentiation fails or yields the identity.
pub open spec fn pairing_value(p: G1Affine, q: G2Affine) -> Option<Fq12> {
    match final_exp_of(miller_of(p, q)) {
        Some(e) => if gt_is_one(e) {
            None
        } else {
            Some(e)
        },
        None => None,
    }
}

/// The GT encoding that the current backend computes from two point encodings.
pub open spec fn expected_gt(g1: Seq<u8>, g2: Seq<u8>) -> Option<Seq<u8>> {
    match pairing_value(g1_point(g1), g2_point(g2)) {
        Some(e) => Some(gt_encoding(e)),
        None => None,
    }
}

/// The verdict on three encodings: decoding G1, then G2, then the pairing,
/// then the byte comparison of GT.
pub open spec fn verify_outcome(g1: Seq<u8>, g2: Seq<u8>, gt: Seq<u8>) -> Result<(), CompatError> {
    if !g1_valid(g1) {
        Err(CompatError::Decode(Group::G1))
    } else if !g2_valid(g2) {
        Err(CompatError::Decode(Group::G2))
    } else {
        match expected_gt(g1, g2) {
            None => Err(CompatError::Pairing),
            Some(e) => if e == gt {
                Ok(())
            } else {
                Err(CompatError::Mismatch)
            },
        }
    }
}

/// The verdict on a vector.
pub open spec fn verify_result(t: TestVector) -> Result<(), CompatError> {
    verify_outcome(t.g1@, t.g2@, t.gt@)
}

/// The vector built from two drawn points: their encodings and that of their
/// pairing.
pub open spec fn assembled(p: G1Affine, q: G2Affine) -> Result<
    (Seq<u8>, Seq<u8>, Seq<u8>),
    CompatError,
> {
    match pairing_value(p, q) {
        Some(e) => Ok((g1_encoding(p), g2_encoding(q), gt_encoding(e))),
        None => Err(CompatError::Pairing),
    }
}

/// The vector generated from a generator state.
pub open spec fn generated(s: ChaCha20Rng) -> Result<(Seq<u8>, Seq<u8>, Seq<u8>), CompatError> {
    assembled(g1_drawn(s), g2_drawn(rng_after_g1(s)))
}

/// The generator state after one vector is generated.
pub open spec fn state_after_generation(s: ChaCha20Rng) -> ChaCha20Rng {
    rng_after_g2(rng_after_g1(s))
}

/// A vector is accepted exactly when both points decode and the encoding of
/// their recomputed pairing equals the stored GT bytes; any other vector is
/// rejected at the stage where it first fails.
pub proof fn lemma_accept_iff_recomputed_matches(g1: Seq<u8>, g2: Seq<u8>, gt: Seq<u8>)
    ensures
        verify_outcome(g1, g2, gt) == Ok::<(), CompatError>(()) <==> g1_valid(g1) && g2_valid(g2)
            && expected_gt(g1, g2) == Some(gt),
        !g1_valid(g1) ==> verify_outcome(g1, g2, gt) == Err::<(), CompatError>(
            CompatError::Decode(Group::G1),
        ),
        g1_valid(g1) && !g2_valid(g2) ==> verify_outcome(g1, g2, gt) == Err::<(), CompatError>(
            CompatError::Decode(Group::G2),
        ),
{
}

/// Changing the GT bytes of an accepted vector makes it fail at the
/// comparison.
pub proof fn lemma_changed_gt_is_mismatch(g1: Seq<u8>, g2: Seq<u8>, gt: Seq<u8>, other: Seq<u8>)
    requires
        verify_outcome(g1, g2, gt) is Ok,
        other != gt,
    ensures
        verify_outcome(g1, g2, other) == Err::<(), CompatError>(CompatError::Mismatch),
{
}

/// Generators in the same state give the same vector and end in the same
/// state, so generators seeded alike and driven alike agree at every step.
pub proof fn lemma_generation_deterministic(s1: ChaCha20Rng, s2: ChaCha20Rng)
    requires
        s1 == s2,
    ensures
        generated(s1) == generated(s2),
        state_after_generation(s1) == state_after_generation(s2),
{
}

/// Checks that a vector encodes a consistent pairing instance under the
/// current backend: both points decompress, and the compressed pairing of
/// them equals the stored GT bytes.
pub fn verify_test_vector(t: &TestVector) -> (r: Result<(), CompatError>)
    ensures
        r == verify_result(*t),
        r is Ok ==> t.well_formed(),
{
    if t.g1.len() != G1_LEN {
        return Err(CompatError::Decode(Group::G1));
    }
    let p = match decompress_g1(t.g1.as_slice()) {
        Ok(p) => p,
        Err(_) => return Err(CompatError::Decode(Group::G1)),
    };
    if t.g2.len() != G2_LEN {
        return Err(CompatError::Decode(Group::G2));
    }
    let q = match decompress_g2(t.g2.as_slice()) {
        Ok(q) => q,
        Err(_) => return Err(CompatError::Decode(Group::G2)),
    };
    let f = miller_loop(&p, &q);
    let e = match final_exponentiation(&f) {
        Some(e) => e,
        None => return Err(CompatError::Pairing),
    };
    if is_one(&e) {
        return Err(CompatError::Pairing);
    }
    let recomputed = compress_gt(&e);
    assert(pairing_value(g1_point(t.g1@), g2_point(t.g2@)) == Some(e));
    assert(expected_gt(t.g1@, t.g2@) == Some(recomputed@));
    let r = check_encoding(&recomputed, &t.gt);
    assert(g1_valid(t.g1@) && g2_valid(t.g2@));
    r
}

/// Builds the vector of two points: their encodings and the encoding of
/// their pairing. Every vector it builds from subgroup points passes the
/// verifier.
pub fn assemble_vector(p: &G1Affine, q: &G2Affine) -> (r: Result<TestVector, CompatError>)
    ensures
        r is Err <==> assembled(*p, *q) is Err,
        r matches Err(e) ==> assembled(*p, *q) == Err::<(Seq<u8>, Seq<u8>, Seq<u8>), CompatError>(
            e,
        ),
        r matches Ok(v) ==> assembled(*p, *q) == Ok::<_, CompatError>((v.g1@, v.g2@, v.gt@)),
        r matches Ok(v) ==> v.well_formed(),
        r matches Ok(v) ==> (g1_in_group(*p) && g2_in_group(*q) ==> verify_result(v) == Ok::<
            (),
            CompatError,
        >(())),
{
    let f = miller_loop(p, q);
    let e = match final_exponentiation(&f) {
        Some(e) => e,
        None => return Err(CompatError::Pairing),
    };
    if is_one(&e) {
        return Err(CompatError::Pairing);
    }
    let v = TestVector { g1: compress_g1(p), g2: compress_g2(q), gt: compress_gt(&e) };
    proof {
        if g1_in_group(*p) && g2_in_group(*q) {
            assert(pairing_value(g1_point(v.g1@), g2_point(v.g2@)) == Some(e));
        }
    }
    Ok(v)
}

/// Draws a G1 and a G2 point from the generator, pairs them and returns the
/// compressed encodings of all three. The outcome and the next generator
/// state depend on the generator state alone, and a vector it returns passes
/// the verifier.
pub fn compute_test_vector(rng: &mut ChaCha20Rng) -> (r: Result<TestVector, CompatError>)
    ensures
        *final(rng) == state_after_generation(*old(rng)),
        r is Err <==> generated(*old(rng)) is Err,
        r matches Err(e) ==> generated(*old(rng)) == Err::<
            (Seq<u8>, Seq<u8>, Seq<u8>),
            CompatError,
        >(e),
        r matches Ok(v) ==> generated(*old(rng)) == Ok::<_, CompatError>((v.g1@, v.g2@, v.gt@)),
        r matches Ok(v) ==> v.well_formed() && verify_result(v) == Ok::<(), CompatError>(()),
{
    let p = random_g1(rng);
    let q = random_g2(rng);
    assemble_vector(&p, &q)
}

/// Where a checked vector came from.
#[derive(Debug, Clone, Copy, PartialEq, Eq, Structural)]
pub enum VectorSource {
    /// Freshly generated by the current backend.
    Generated,
    /// The entry of the fixed table at this index.
    Fixed(usize),
}

/// The vector that failed and the stage at which it failed.
#[derive(Debug, Clone, Copy, PartialEq, Eq, Structural)]
pub struct CompatFailure {
    pub source: VectorSource,
    pub error: CompatError,
}

/// Verifies the vectors in order and stops at the first that fails, giving
/// its index and the failing stage.
pub fn verify_all(vectors: &Vec<TestVector>) -> (r: Result<(), (usize, CompatError)>)
    ensures
        r is Ok <==> forall|i: int|
            0 <= i < vectors@.len() ==> verify_result(#[trigger] vectors@[i]) == Ok::<
                (),
                CompatError,
            >(()),
        r matches Err((i, e)) ==> {
            &&& i < vectors@.len()
            &&& verify_result(vectors@[i as int]) == Err::<(), CompatError>(e)
            &&& forall|j: int|
                0 <= j < i ==> verify_result(#[trigger] vectors@[j]) == Ok::<(), CompatError>(())
        },
{
    let mut i: usize = 0;
    while i < vectors.len()
        invariant
            i <= vectors@.len(),
            forall|j: int|
                0 <= j < i ==> verify_result(#[trigger] vectors@[j]) == Ok::<(), CompatError>(()),
        decreases vectors@.len() - i,
    {
        match verify_test_vector(&vectors[i]) {
            Ok(()) => {},
            Err(e) => {
                return Err((i, e));
            },
        }
        i = i + 1;
    }
    Ok(())
}

/// The verdict on the entry of the fixed table captured from blst.
pub open spec fn blst_outcome() -> Result<(), CompatError> {
    verify_outcome(blst_g1(), blst_g2(), blst_gt())
}

/// The verdict on the entry of the fixed table captured from `paired`.
pub open spec fn paired_outcome() -> Result<(), CompatError> {
    verify_outcome(paired_g1(), paired_g2(), paired_gt())
}

/// The whole compatibility check: a vector generated from the seed must pass
/// the verifier, and so must every entry of the fixed table. Reports the first
/// vector that fails.
pub fn run_compat(seed: u64) -> (r: Result<(), CompatFailure>)
    ensures
        r matches Err(f) ==> (f.source == VectorSource::Generated <==> generated(
            rng_of_seed(seed),
        ) is Err),
        r matches Err(f) ==> (f.source == VectorSource::Generated ==> generated(rng_of_seed(seed))
            == Err::<(Seq<u8>, Seq<u8>, Seq<u8>), CompatError>(f.error)),
        r matches Err(f) ==> (f.source == VectorSource::Fixed(0) ==> blst_outcome() == Err::<
            (),
            CompatError,
        >(f.error)),
        r matches Err(f) ==> (f.source == VectorSource::Fixed(1) ==> blst_outcome() is Ok
            && paired_outcome() == Err::<(), CompatError>(f.error)),
        r matches Err(f) ==> (f.source matches VectorSource::Fixed(i) ==> i < 2),
        generated(rng_of_seed(seed)) is Ok ==> (r is Ok <==> blst_outcome() is Ok
            && paired_outcome() is Ok),
        r is Ok ==> generated(rng_of_seed(seed)) is Ok,
{
    let mut rng = seeded_rng(seed);
    let generated = match compute_test_vector(&mut rng) {
        Ok(v) => v,
        Err(e) => return Err(CompatFailure { source: VectorSource::Generated, error: e }),
    };
    match verify_test_vector(&generated) {
        Ok(()) => {},
        Err(e) => return Err(CompatFailure { source: VectorSource::Generated, error: e }),
    }
    let table = get_test_vectors();
    proof {
        assert(verify_result(table@[0]) == blst_outcome());
        assert(verify_result(table@[1]) == paired_outcome());
    }
    match verify_all(&table) {
        Ok(()) => Ok(()),
        Err((i, e)) => Err(CompatFailure { source: VectorSource::Fixed(i), error: e }),
    }
}

} // verus!
