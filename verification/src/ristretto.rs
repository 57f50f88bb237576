use vstd::prelude::*;
use curve25519_dalek::traits::MultiscalarMul;
use crate::encoding::bytes32;
use crate::error::Error;
use crate::scalar::{add_mod, group_order, mul_mod, reduce, Scalar};

verus! {

/// The 32-byte encoding of `k * B`, where `B` is the basepoint of the
/// Ristretto group: what curve25519-dalek returns for
/// `RistrettoPoint::mul_base(&k).compress()`.
pub uninterp spec fn ristretto_base_mul(k: nat) -> Seq<u8>;

/// The 32-byte encoding of the group element that curve25519-dalek's
/// `RistrettoPoint::hash_from_bytes::<Sha512>` maps `data` to.
pub uninterp spec fn ristretto_from_sha512(data: Seq<u8>) -> Seq<u8>;

/// Whether `bytes` encode the group element `index * B`.
pub open spec fn encodes(bytes: Seq<u8>, index: nat) -> bool {
    index < group_order() && bytes == ristretto_base_mul(index)
}

/// Whether `bytes` encode a group element at all.
pub open spec fn is_point_encoding(bytes: Seq<u8>) -> bool {
    exists|k: nat| encodes(bytes, k)
}

/// An index of the group element that `bytes` encode.
pub open spec fn point_index(bytes: Seq<u8>) -> nat {
    choose|k: nat| encodes(bytes, k)
}

/// The sum of `coefficients[k] * indices[k]` over two sequences of one
/// length (0 where the lengths differ).
pub open spec fn linear_combination(coefficients: Seq<nat>, indices: Seq<nat>) -> nat
    decreases coefficients.len(),
{
    if coefficients.len() == 0 || coefficients.len() != indices.len() {
        0
    } else {
        linear_combination(coefficients.drop_last(), indices.drop_last()) + coefficients.last()
            * indices.last()
    }
}

/// The integers that a sequence of scalars holds.
pub open spec fn scalar_values(scalars: Seq<Scalar>) -> Seq<nat> {
    Seq::new(scalars.len(), |k: int| scalars[k]@)
}

/// The indices of a sequence of group elements.
pub open spec fn point_indices(points: Seq<RistrettoPoint>) -> Seq<nat> {
    Seq::new(points.len(), |k: int| points[k]@)
}

/// 32 bytes that claim to encode a group element. Nothing is known of them
/// until `decompress` has accepted them.
#[derive(Clone, Copy, Debug, PartialEq, Eq)]
pub struct CompressedRistretto(pub [u8; 32]);

/// An element of the Ristretto group, held as its canonical encoding.
///
/// Its view is its index `k`: the element is `k * B`, and `k` is below the
/// group order. The encoding is that of `k * B` at all times, so the bytes of
/// a value of this type always decompress.
#[derive(Clone, Copy)]
pub struct RistrettoPoint {
    bytes: [u8; 32],
    index: Ghost<nat>,
}

impl View for RistrettoPoint {
    type V = nat;

    closed spec fn view(&self) -> nat {
        self.index@
    }
}

/// `RISTRETTO_BASEPOINT_POINT` of curve25519-dalek, compressed: the encoding
/// of `1 * B`.
#[verifier::external_body]
fn dalek_basepoint() -> (out: [u8; 32])
    ensures
        out@ == ristretto_base_mul(1),
{
    curve25519_dalek::constants::RISTRETTO_BASEPOINT_POINT.compress().to_bytes()
}

/// `CompressedRistretto::decompress` of curve25519-dalek, asked only whether
/// it accepts: it does exactly when the bytes are the canonical encoding of a
/// group element, and every group element is a multiple of the basepoint.
#[verifier::external_body]
fn dalek_decompresses(bytes: &[u8; 32]) -> (ok: bool)
    ensures
        ok == is_point_encoding(bytes@),
{
    curve25519_dalek::ristretto::CompressedRistretto(*bytes).decompress().is_some()
}

/// `RistrettoPoint::hash_from_bytes::<Sha512>` of curve25519-dalek,
/// compressed: a group element that depends on `data` alone.
#[verifier::external_body]
fn dalek_hash_to_point(data: &[u8]) -> (out: [u8; 32])
    ensures
        out@ == ristretto_from_sha512(data@),
        is_point_encoding(out@),
{
    curve25519_dalek::ristretto::RistrettoPoint::hash_from_bytes::<sha2::Sha512>(data)
        .compress()
        .to_bytes()
}

/// `+` on two points of curve25519-dalek: indices add modulo the group order.
/// Both arguments hold valid encodings, so decompressing them cannot fail.
#[verifier::external_body]
fn dalek_point_add(a: &RistrettoPoint, b: &RistrettoPoint) -> (out: [u8; 32])
    ensures
        encodes(out@, add_mod(a@, b@)),
{
    let p = curve25519_dalek::ristretto::CompressedRistretto(a.bytes).decompress().unwrap();
    let q = curve25519_dalek::ristretto::CompressedRistretto(b.bytes).decompress().unwrap();
    (p + q).compress().to_bytes()
}

/// `*` of a scalar and a point of curve25519-dalek: the index is multiplied
/// by the scalar modulo the group order. The scalar is canonical and the point
/// holds a valid encoding, so neither conversion can fail.
#[verifier::external_body]
fn dalek_point_mul(scalar: &Scalar, point: &RistrettoPoint) -> (out: [u8; 32])
    ensures
        encodes(out@, mul_mod(scalar@, point@)),
{
    let s = curve25519_dalek::scalar::Scalar::from_canonical_bytes(scalar.to_bytes()).unwrap();
    let p = curve25519_dalek::ristretto::CompressedRistretto(point.bytes).decompress().unwrap();
    (s * p).compress().to_bytes()
}

/// `RistrettoPoint::multiscalar_mul` of curve25519-dalek: the element
/// `scalars[0] * points[0] + ... + scalars[n-1] * points[n-1]`, whose index is
/// the same combination of the indices modulo the group order. It panics when
/// the two lists differ in length.
#[verifier::external_body]
fn dalek_multiscalar_mul(scalars: &Vec<Scalar>, points: &Vec<RistrettoPoint>) -> (out: [u8; 32])
    requires
        scalars.len() == points.len(),
    ensures
        encodes(
            out@,
            reduce(linear_combination(scalar_values(scalars@), point_indices(points@)) as int),
        ),
{
    let s = scalars.iter().map(
        |x| curve25519_dalek::scalar::Scalar::from_canonical_bytes(x.to_bytes()).unwrap(),
    );
    let p = points.iter().map(
        |x| curve25519_dalek::ristretto::CompressedRistretto(x.bytes).decompress().unwrap(),
    );
    curve25519_dalek::ristretto::RistrettoPoint::multiscalar_mul(s, p).compress().to_bytes()
}

/// `==` on two points of curve25519-dalek: true exactly when both are the
/// same group element, that is, when their indices are the same.
#[verifier::external_body]
fn dalek_point_eq(a: &RistrettoPoint, b: &RistrettoPoint) -> (same: bool)
    ensures
        same == (a@ == b@),
{
    let p = curve25519_dalek::ristretto::CompressedRistretto(a.bytes).decompress().unwrap();
    let q = curve25519_dalek::ristretto::CompressedRistretto(b.bytes).decompress().unwrap();
    p == q
}

impl CompressedRistretto {
    /// Takes 32 bytes off the wire, and refuses any other length.
    pub fn from_slice(bytes: &[u8]) -> (r: Result<CompressedRistretto, Error>)
        ensures
            r is Ok <==> bytes@.len() == 32,
            r matches Ok(c) ==> c.0@ == bytes@,
            r matches Err(e) ==> e == Error::InvalidEncoding,
    {
        if bytes.len() != 32 {
            return Err(Error::InvalidEncoding);
        }
        let out = bytes32(bytes);
        Ok(CompressedRistretto(out))
    }

    /// The 32 bytes.
    pub fn to_bytes(&self) -> (bytes: [u8; 32])
        ensures
            bytes == self.0,
    {
        self.0
    }

    /// The 32 bytes, borrowed.
    pub fn as_bytes(&self) -> (bytes: &[u8; 32])
        ensures
            *bytes == self.0,
    {
        &self.0
    }

    /// Decodes the group element, and refuses bytes that are not the canonical
    /// encoding of one.
    pub fn decompress(&self) -> (r: Option<RistrettoPoint>)
        ensures
            r is Some <==> is_point_encoding(self.0@),
            r matches Some(p) ==> p.encoding() == self.0@ && p@ == point_index(self.0@),
    {
        if dalek_decompresses(&self.0) {
            Some(RistrettoPoint::from_encoding(self.0))
        } else {
            None
        }
    }
}

impl RistrettoPoint {
    #[verifier::type_invariant]
    spec fn well_formed(self) -> bool {
        encodes(self.bytes@, self.index@)
    }

    /// The 32 bytes that encode the element.
    pub closed spec fn encoding(&self) -> Seq<u8> {
        self.bytes@
    }

    /// The group element with the given encoding.
    pub(crate) fn from_encoding(bytes: [u8; 32]) -> (p: RistrettoPoint)
        requires
            is_point_encoding(bytes@),
        ensures
            p.encoding() == bytes@,
            p@ == point_index(bytes@),
    {
        RistrettoPoint { bytes, index: Ghost(point_index(bytes@)) }
    }

    /// The basepoint `B` of the group.
    pub fn basepoint() -> (b: RistrettoPoint)
        ensures
            b@ == 1,
            b.encoding() == ristretto_base_mul(1),
    {
        let bytes = dalek_basepoint();
        RistrettoPoint { bytes, index: Ghost(1) }
    }

    /// Hashes `data` to a group element with SHA-512, so that nobody knows
    /// its index.
    pub fn hash_from_bytes(data: &[u8]) -> (p: RistrettoPoint)
        ensures
            p.encoding() == ristretto_from_sha512(data@),
            p@ == point_index(ristretto_from_sha512(data@)),
    {
        RistrettoPoint::from_encoding(dalek_hash_to_point(data))
    }

    /// The wire format of the element.
    pub fn compress(&self) -> (c: CompressedRistretto)
        ensures
            c.0@ == self.encoding(),
            encodes(c.0@, self@),
    {
        proof {
            use_type_invariant(self);
        }
        CompressedRistretto(self.bytes)
    }

    /// `self + other` in the group.
    pub fn add(&self, other: &RistrettoPoint) -> (sum: RistrettoPoint)
        ensures
            sum@ == add_mod(self@, other@),
    {
        let bytes = dalek_point_add(self, other);
        RistrettoPoint { bytes, index: Ghost(add_mod(self@, other@)) }
    }

    /// `scalar * self` in the group.
    pub fn mul(&self, scalar: &Scalar) -> (product: RistrettoPoint)
        ensures
            product@ == mul_mod(scalar@, self@),
    {
        let bytes = dalek_point_mul(scalar, self);
        RistrettoPoint { bytes, index: Ghost(mul_mod(scalar@, self@)) }
    }

    /// `scalars[0] * points[0] + ... + scalars[n-1] * points[n-1]` in the
    /// group.
    pub fn multiscalar_mul(scalars: &Vec<Scalar>, points: &Vec<RistrettoPoint>) -> (q:
        RistrettoPoint)
        requires
            scalars.len() == points.len(),
        ensures
            q@ == reduce(
                linear_combination(scalar_values(scalars@), point_indices(points@)) as int,
            ),
    {
        let bytes = dalek_multiscalar_mul(scalars, points);
        RistrettoPoint {
            bytes,
            index: Ghost(
                reduce(linear_combination(scalar_values(scalars@), point_indices(points@)) as int),
            ),
        }
    }

    /// Whether both are the same group element.
    pub fn eq(&self, other: &RistrettoPoint) -> (same: bool)
        ensures
            same == (self@ == other@),
    {
        dalek_point_eq(self, other)
    }
}

} // verus!
