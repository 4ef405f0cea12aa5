//! Declarations and trusted wrappers for the curve-group operations that the
//! generator derivation relies on: the Ristretto group of curve25519_dalek,
//! its canonical compressed encoding, the SHA-512 based hash-to-curve map,
//! and the two-term multiscalar multiplication behind Pedersen commitments.
use vstd::prelude::*;
use curve25519_dalek::ristretto::RistrettoPoint;
use curve25519_dalek::scalar::Scalar;
use curve25519_dalek::traits::MultiscalarMul;

verus! {

#[verifier::external_type_specification]
#[verifier::external_body]
pub struct ExRistrettoPoint(RistrettoPoint);

#[verifier::external_type_specification]
#[verifier::external_body]
pub struct ExScalar(Scalar);

/// Relies on `RistrettoPoint`'s derived `Clone`: the type is `Copy`, so a
/// clone is the point itself.
pub assume_specification[ <RistrettoPoint as core::clone::Clone>::clone ](
    p: &RistrettoPoint,
) -> (r: RistrettoPoint)
    ensures
        r == *p,
;

/// The point that the SHA-512 based uniform hash-to-curve map yields for a
/// given byte string; a function of the input bytes alone.
pub uninterp spec fn point_from_hash(input: Seq<u8>) -> RistrettoPoint;

/// The canonical compressed 32-byte Ristretto encoding of a point; a function
/// of the point alone.
pub uninterp spec fn point_encoding(p: RistrettoPoint) -> Seq<u8>;

/// The two-term multiscalar multiplication `value * b + blinding * b_blinding`;
/// a function of the two scalars and the two points alone.
pub uninterp spec fn pedersen_msm(
    value: Scalar,
    blinding: Scalar,
    b: RistrettoPoint,
    b_blinding: RistrettoPoint,
) -> RistrettoPoint;

/// Relies on `RistrettoPoint::hash_from_bytes::<Sha512>`: it hashes the input
/// with SHA-512 and maps the 64-byte digest uniformly onto the group, is total
/// over all byte inputs, and depends on the input bytes alone.
#[verifier::external_body]
pub(crate) fn hash_to_point(input: &[u8]) -> (p: RistrettoPoint)
    ensures
        p == point_from_hash(input@),
{
    RistrettoPoint::hash_from_bytes::<sha2::Sha512>(input)
}

/// Relies on `RistrettoPoint::compress` and `CompressedRistretto::to_bytes`:
/// the canonical 32-byte encoding of the point, a function of the point alone.
#[verifier::external_body]
pub(crate) fn compress_point(p: &RistrettoPoint) -> (r: [u8; 32])
    ensures
        r@ == point_encoding(*p),
{
    p.compress().to_bytes()
}

/// Relies on `RistrettoPoint::multiscalar_mul` (the `MultiscalarMul` impl):
/// it returns the sum of each scalar times its point, here
/// `value * b + blinding * b_blinding`, a function of its arguments alone.
#[verifier::external_body]
pub(crate) fn pedersen_msm_point(
    value: &Scalar,
    blinding: &Scalar,
    b: &RistrettoPoint,
    b_blinding: &RistrettoPoint,
) -> (r: RistrettoPoint)
    ensures
        r == pedersen_msm(*value, *blinding, *b, *b_blinding),
{
    RistrettoPoint::multiscalar_mul([*value, *blinding], [*b, *b_blinding])
}

} // verus!
