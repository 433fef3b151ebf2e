//! The curve backend: the BLS12-381 implementation of the `paired` crate,
//! reached through the trusted items of this module.
use groupy::{CurveAffine, CurveProjective, EncodedPoint, GroupDecodingError};
use paired::bls12_381::{Bls12, Fq12, G1Affine, G1Compressed, G2Affine, G2Compressed, G1, G2};
use paired::{Compress, Engine, PairingCurveAffine};
use rand_chacha::ChaCha20Rng;
use rand_core::SeedableRng;
use vstd::prelude::*;

verus! {

/// Length of a compressed G1 point.
pub const G1_LEN: usize = 48;

/// Length of a compressed G2 point.
pub const G2_LEN: usize = 96;

/// Length of a compressed GT element.
pub const GT_LEN: usize = 288;

#[verifier::external_type_specification]
#[verifier::external_body]
pub struct ExG1Affine(G1Affine);

#[verifier::external_type_specification]
#[verifier::external_body]
pub struct ExG2Affine(G2Affine);

#[verifier::external_type_specification]
#[verifier::external_body]
pub struct ExFq12(Fq12);

#[verifier::external_type_specification]
#[verifier::external_body]
pub struct ExGroupDecodingError(GroupDecodingError);

#[verifier::external_type_specification]
#[verifier::external_body]
pub struct ExChaCha20Rng(ChaCha20Rng);

/// Whether 48 bytes decompress to a point of the G1 subgroup.
pub uninterp spec fn g1_decodes(b: Seq<u8>) -> bool;

/// Whether 96 bytes decompress to a point of the G2 subgroup.
pub uninterp spec fn g2_decodes(b: Seq<u8>) -> bool;

/// Whether a G1 value is a canonical point of the prime-order subgroup, as
/// decompression and sampling give them.
pub uninterp spec fn g1_in_group(p: G1Affine) -> bool;

/// Whether a G2 value is a canonical point of the prime-order subgroup, as
/// decompression and sampling give them.
pub uninterp spec fn g2_in_group(q: G2Affine) -> bool;

/// The G1 point that 48 bytes decompress to.
pub uninterp spec fn g1_point(b: Seq<u8>) -> G1Affine;

/// The G2 point that 96 bytes decompress to.
pub uninterp spec fn g2_point(b: Seq<u8>) -> G2Affine;

/// The compressed encoding of a G1 point.
pub uninterp spec fn g1_encoding(p: G1Affine) -> Seq<u8>;

/// The compressed encoding of a G2 point.
pub uninterp spec fn g2_encoding(q: G2Affine) -> Seq<u8>;

/// The value of the Miller loop on one pair of points.
pub uninterp spec fn miller_of(p: G1Affine, q: G2Affine) -> Fq12;

/// The final exponentiation of a Miller loop value.
pub uninterp spec fn final_exp_of(f: Fq12) -> Option<Fq12>;

/// Whether an element of Fq12 lies in the target group GT.
pub uninterp spec fn in_target_group(x: Fq12) -> bool;

/// Whether an element of Fq12 is the multiplicative identity.
pub uninterp spec fn gt_is_one(x: Fq12) -> bool;

/// The compressed encoding of an element of GT.
pub uninterp spec fn gt_encoding(x: Fq12) -> Seq<u8>;

/// The generator whose state a seed fixes.
pub uninterp spec fn rng_of_seed(seed: u64) -> ChaCha20Rng;

/// The G1 point drawn from a generator state.
pub uninterp spec fn g1_drawn(s: ChaCha20Rng) -> G1Affine;

/// The generator state after a G1 point is drawn.
pub uninterp spec fn rng_after_g1(s: ChaCha20Rng) -> ChaCha20Rng;

/// The G2 point drawn from a generator state.
pub uninterp spec fn g2_drawn(s: ChaCha20Rng) -> G2Affine;

/// The generator state after a G2 point is drawn.
pub uninterp spec fn rng_after_g2(s: ChaCha20Rng) -> ChaCha20Rng;

/// Relies on `SeedableRng::seed_from_u64` for ChaCha20: the state is a
/// function of the seed.
#[verifier::external_body]
pub(crate) fn seeded_rng(seed: u64) -> (r: ChaCha20Rng)
    ensures
        r == rng_of_seed(seed),
{
    ChaCha20Rng::seed_from_u64(seed)
}

/// Relies on `CurveProjective::random` of `G1` and its conversion to affine
/// form: the point and the next state depend on the generator state alone.
/// The sampler clears the cofactor and loops until the point is not zero.
#[verifier::external_body]
pub(crate) fn random_g1(rng: &mut ChaCha20Rng) -> (r: G1Affine)
    ensures
        r == g1_drawn(*old(rng)),
        g1_in_group(r),
        *final(rng) == rng_after_g1(*old(rng)),
{
    G1::random(rng).into_affine()
}

/// Relies on `CurveProjective::random` of `G2` and its conversion to affine
/// form: the point and the next state depend on the generator state alone.
/// The sampler clears the cofactor and loops until the point is not zero.
#[verifier::external_body]
pub(crate) fn random_g2(rng: &mut ChaCha20Rng) -> (r: G2Affine)
    ensures
        r == g2_drawn(*old(rng)),
        g2_in_group(r),
        *final(rng) == rng_after_g2(*old(rng)),
{
    G2::random(rng).into_affine()
}

/// Relies on `CurveAffine::into_compressed` of `G1Affine`: a `[u8; 48]` that
/// `G1Compressed::into_affine` maps back to the same point when the point is
/// a canonical subgroup point.
#[verifier::external_body]
pub(crate) fn compress_g1(p: &G1Affine) -> (r: Vec<u8>)
    ensures
        r@ == g1_encoding(*p),
        r@.len() == G1_LEN,
        g1_in_group(*p) ==> g1_decodes(r@) && g1_point(r@) == *p,
{
    p.into_compressed().as_ref().to_vec()
}

/// Relies on `CurveAffine::into_compressed` of `G2Affine`: a `[u8; 96]` that
/// `G2Compressed::into_affine` maps back to the same point when the point is
/// a canonical subgroup point.
#[verifier::external_body]
pub(crate) fn compress_g2(q: &G2Affine) -> (r: Vec<u8>)
    ensures
        r@ == g2_encoding(*q),
        r@.len() == G2_LEN,
        g2_in_group(*q) ==> g2_decodes(r@) && g2_point(r@) == *q,
{
    q.into_compressed().as_ref().to_vec()
}

/// Relies on `EncodedPoint::into_affine` of `G1Compressed`: checks the flags,
/// recovers the point and checks that it lies on the curve and in the subgroup.
#[verifier::external_body]
pub(crate) fn decompress_g1(b: &[u8]) -> (r: Result<G1Affine, GroupDecodingError>)
    requires
        b@.len() == G1_LEN,
    ensures
        r is Ok <==> g1_decodes(b@),
        r matches Ok(p) ==> p == g1_point(b@) && g1_in_group(p),
{
    let mut c = G1Compressed::empty();
    c.as_mut().copy_from_slice(b);
    c.into_affine()
}

/// Relies on `EncodedPoint::into_affine` of `G2Compressed`: checks the flags,
/// recovers the point and checks that it lies on the curve and in the subgroup.
#[verifier::external_body]
pub(crate) fn decompress_g2(b: &[u8]) -> (r: Result<G2Affine, GroupDecodingError>)
    requires
        b@.len() == G2_LEN,
    ensures
        r is Ok <==> g2_decodes(b@),
        r matches Ok(q) ==> q == g2_point(b@) && g2_in_group(q),
{
    let mut c = G2Compressed::empty();
    c.as_mut().copy_from_slice(b);
    c.into_affine()
}

/// Relies on `Engine::miller_loop` of `Bls12` over the one pair of prepared
/// points: a function of the two points.
#[verifier::external_body]
pub(crate) fn miller_loop(p: &G1Affine, q: &G2Affine) -> (r: Fq12)
    ensures
        r == miller_of(*p, *q),
{
    Bls12::miller_loop(&[(&p.prepare(), &q.prepare())])
}

/// Relies on `Engine::final_exponentiation` of `Bls12`: `None` where the
/// Miller loop value is not invertible, else its image in GT.
#[verifier::external_body]
pub(crate) fn final_exponentiation(f: &Fq12) -> (r: Option<Fq12>)
    ensures
        r == final_exp_of(*f),
        r matches Some(x) ==> in_target_group(x),
{
    Bls12::final_exponentiation(f)
}

/// Relies on `Fq12`'s `PartialEq` against `Field::one`.
#[verifier::external_body]
pub(crate) fn is_one(x: &Fq12) -> (r: bool)
    ensures
        r == gt_is_one(*x),
{
    *x == <Fq12 as fff::Field>::one()
}

/// Relies on `Compress::write_compressed` of `Fq12`: the torus compression,
/// six base field elements of 48 bytes each. It unwraps `Fq12::compress`,
/// which is `None` off the cyclotomic subgroup, and inverts the `c1`
/// coordinate, which in GT is zero only for the identity. Writing into a
/// `Vec` does not fail.
#[verifier::external_body]
pub(crate) fn compress_gt(x: &Fq12) -> (r: Vec<u8>)
    requires
        in_target_group(*x),
        !gt_is_one(*x),
    ensures
        r@ == gt_encoding(*x),
        r@.len() == GT_LEN,
{
    let mut out: Vec<u8> = Vec::new();
    x.write_compressed(&mut out).unwrap();
    out
}

} // verus!
