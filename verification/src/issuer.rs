use vstd::prelude::*;
use crate::encoding::{append_bytes, point_from_bytes, scalar_from_bytes};
use crate::error::Error;
use crate::modular::{lemma_reduce_add, lemma_reduce_mul, lemma_reduce_range};
use crate::ristretto::{is_point_encoding, point_index, RistrettoPoint};
use crate::scalar::{
    add_mod, group_order, hash_to_scalar, is_canonical_scalar, lemma_le_value_injective, mul_mod,
    reduce, Scalar,
};

verus! {

/// An issuer's attestation of a commitment: the response `s` and the nonce
/// commitment `R` of a Schnorr signature.
#[allow(non_snake_case)]
#[derive(Clone, Copy)]
pub struct Signature {
    pub s: Scalar,
    pub R: RistrettoPoint,
}

/// The issuer's key pair. The private key never leaves this value; the public
/// key is the private key times the basepoint.
pub struct Issuer {
    private_key: Scalar,
    public_key: RistrettoPoint,
}

/// The bytes that are hashed into the challenge: the encodings of the nonce
/// commitment, of the public key and of the commitment, in this order.
pub open spec fn challenge_input(
    nonce_commitment: RistrettoPoint,
    public_key: RistrettoPoint,
    commitment: RistrettoPoint,
) -> Seq<u8> {
    nonce_commitment.encoding() + public_key.encoding() + commitment.encoding()
}

/// The challenge `e` of a signature.
pub open spec fn challenge(
    nonce_commitment: RistrettoPoint,
    public_key: RistrettoPoint,
    commitment: RistrettoPoint,
) -> nat {
    hash_to_scalar(challenge_input(nonce_commitment, public_key, commitment))
}

/// The equation that a signature has to meet: `s * G == R + e * P`, with
/// `G` the basepoint, `P` the public key and `e` the challenge.
pub open spec fn signature_holds(
    public_key: RistrettoPoint,
    commitment: RistrettoPoint,
    signature: Signature,
) -> bool {
    mul_mod(signature.s@, 1) == add_mod(
        signature.R@,
        mul_mod(challenge(signature.R, public_key, commitment), public_key@),
    )
}

/// Computes the challenge `e = H(R || P || C)` as a scalar.
fn compute_challenge(
    nonce_commitment: &RistrettoPoint,
    public_key: &RistrettoPoint,
    commitment: &RistrettoPoint,
) -> (e: Scalar)
    ensures
        e@ == challenge(*nonce_commitment, *public_key, *commitment),
{
    let r_bytes = nonce_commitment.compress().to_bytes();
    let p_bytes = public_key.compress().to_bytes();
    let c_bytes = commitment.compress().to_bytes();
    let mut input: Vec<u8> = Vec::new();
    append_bytes(&mut input, r_bytes.as_slice());
    append_bytes(&mut input, p_bytes.as_slice());
    append_bytes(&mut input, c_bytes.as_slice());
    assert(input@ =~= challenge_input(*nonce_commitment, *public_key, *commitment));
    Scalar::hash_from_bytes(input.as_slice())
}

impl Issuer {
    #[verifier::type_invariant]
    spec fn key_pair(self) -> bool {
        self.public_key@ == mul_mod(self.private_key@, 1)
    }

    /// The public key of this issuer.
    pub closed spec fn public_key(&self) -> RistrettoPoint {
        self.public_key
    }

    /// The private key of this issuer. Contracts speak of it; no executable
    /// function hands it out.
    pub closed spec fn private_key(&self) -> Scalar {
        self.private_key
    }

    /// Whether the two halves belong together: the public key is the private
    /// key times the basepoint.
    pub open spec fn is_key_pair(&self) -> bool {
        self.public_key()@ == mul_mod(self.private_key()@, 1)
    }

    /// An issuer with a fresh private key from the operating system's random
    /// generator. Whatever key was drawn, the public key is the private key
    /// times the basepoint.
    pub fn new() -> (issuer: Issuer)
        ensures
            issuer.is_key_pair(),
    {
        Issuer::from_private_key(Scalar::random())
    }

    /// The issuer with the given private key: its public key is the private
    /// key times the basepoint.
    pub fn from_private_key(private_key: Scalar) -> (issuer: Issuer)
        ensures
            issuer.private_key() == private_key,
            issuer.public_key()@ == mul_mod(private_key@, 1),
            issuer.is_key_pair(),
    {
        let public_key = RistrettoPoint::basepoint().mul(&private_key);
        Issuer { private_key, public_key }
    }

    /// The public key, for anyone who wants to check an attestation.
    pub fn get_public_key(&self) -> (key: RistrettoPoint)
        ensures
            key == self.public_key(),
    {
        self.public_key
    }

    /// Signs `commitment` with the nonce `k`: `R = k * G` and
    /// `s = k + e * private_key`.
    ///
    /// A nonce that signs two commitments gives the private key away, so this
    /// function stays private and gets its nonce from `sign_commitment` alone.
    fn sign_with_nonce(&self, commitment: RistrettoPoint, k: &Scalar) -> (signature: Signature)
        ensures
            signature.R@ == mul_mod(k@, 1),
            signature.s@ == add_mod(
                k@,
                mul_mod(challenge(signature.R, self.public_key(), commitment), self.private_key@),
            ),
            signature_holds(self.public_key(), commitment, signature),
    {
        proof {
            use_type_invariant(self);
        }
        let nonce_commitment = RistrettoPoint::basepoint().mul(k);
        let e = compute_challenge(&nonce_commitment, &self.public_key, &commitment);
        let s = k.add(&e.mul(&self.private_key));
        proof {
            lemma_signature_round_trip(self.private_key@, k@, e@);
        }
        Signature { s, R: nonce_commitment }
    }

    /// Attests `commitment`. Every call draws a fresh nonce from the operating
    /// system's random generator; the signature that comes back verifies
    /// under this issuer's public key, whatever the nonce was.
    pub fn sign_commitment(&self, commitment: RistrettoPoint) -> (signature: Signature)
        ensures
            signature_holds(self.public_key(), commitment, signature),
    {
        let k = Scalar::random();
        self.sign_with_nonce(commitment, &k)
    }
}

/// Checks an attestation of `commitment` under `public_key`: whether
/// `s * G == R + e * P`.
pub fn verify_signature(
    public_key: RistrettoPoint,
    commitment: RistrettoPoint,
    signature: &Signature,
) -> (valid: bool)
    ensures
        valid == signature_holds(public_key, commitment, *signature),
{
    let e = compute_challenge(&signature.R, &public_key, &commitment);
    let left = RistrettoPoint::basepoint().mul(&signature.s);
    let right = signature.R.add(&public_key.mul(&e));
    left.eq(&right)
}

/// The same check with a typed answer: `SignatureInvalid` for an attestation
/// that does not verify.
pub fn check_signature(
    public_key: RistrettoPoint,
    commitment: RistrettoPoint,
    signature: &Signature,
) -> (r: Result<(), Error>)
    ensures
        r is Ok <==> signature_holds(public_key, commitment, *signature),
        r matches Err(e) ==> e == Error::SignatureInvalid,
{
    if verify_signature(public_key, commitment, signature) {
        Ok(())
    } else {
        Err(Error::SignatureInvalid)
    }
}

impl Signature {
    /// Reads a signature off the wire: `s` as the canonical encoding of a
    /// scalar and `R` as the encoding of a group element, 32 bytes each.
    /// Anything else is refused.
    pub fn from_bytes(s_bytes: &[u8], r_bytes: &[u8]) -> (r: Result<Signature, Error>)
        ensures
            r is Ok <==> is_canonical_scalar(s_bytes@) && r_bytes@.len() == 32
                && is_point_encoding(r_bytes@),
            r matches Ok(signature) ==> {
                &&& signature.s.encoding() == s_bytes@
                &&& signature.R.encoding() == r_bytes@
                &&& signature.R@ == point_index(r_bytes@)
            },
            r matches Err(e) ==> e == Error::InvalidEncoding,
    {
        let s = scalar_from_bytes(s_bytes)?;
        let nonce_commitment = point_from_bytes(r_bytes)?;
        Ok(Signature { s, R: nonce_commitment })
    }
}

/// A signature made with the private key `x`, the nonce `k` and the challenge
/// `e` meets the equation that verification checks against the public key
/// `x * G`.
pub proof fn lemma_signature_round_trip(x: nat, k: nat, e: nat)
    ensures
        mul_mod(add_mod(k, mul_mod(e, x)), 1) == add_mod(
            mul_mod(k, 1),
            mul_mod(e, mul_mod(x, 1)),
        ),
{
    let ex = (e * x) as int;
    // Left: reduce(reduce(k + reduce(e * x)) * 1) == reduce(k + e * x).
    lemma_reduce_add(k as int, ex);
    lemma_reduce_range((k + mul_mod(e, x)) as int);
    lemma_reduce_range(add_mod(k, mul_mod(e, x)) as int);
    assert(add_mod(k, mul_mod(e, x)) * 1 == add_mod(k, mul_mod(e, x)));
    // Right: reduce(reduce(k * 1) + reduce(e * reduce(x * 1))) == reduce(k + e * x).
    assert(k * 1 == k && x * 1 == x);
    lemma_reduce_mul(e as int, x as int);
    lemma_reduce_add(k as int, (e * reduce(x as int)) as int);
    lemma_reduce_add(k as int, mul_mod(e, mul_mod(x, 1)) as int);
    lemma_reduce_add(k as int, mul_mod(e, x) as int);
}

/// For one nonce commitment, one public key and one commitment there is at
/// most one response: if two signatures with the same `R` both meet the
/// equation, their `s` are the same scalar. So a signature whose `s` was
/// changed to any other scalar no longer verifies.
pub proof fn lemma_response_is_unique(
    public_key: RistrettoPoint,
    commitment: RistrettoPoint,
    first: Signature,
    second: Signature,
)
    requires
        first.s@ < group_order(),
        second.s@ < group_order(),
        first.R == second.R,
        signature_holds(public_key, commitment, first),
        signature_holds(public_key, commitment, second),
    ensures
        first.s@ == second.s@,
{
    assert(first.s@ * 1 == first.s@ && second.s@ * 1 == second.s@);
    lemma_reduce_range(first.s@ as int);
    lemma_reduce_range(second.s@ as int);
}

/// A valid signature whose `s` is replaced by the encoding of any other
/// scalar no longer verifies: flipping a bit of `s` either leaves no
/// canonical scalar, which decoding refuses, or leaves this case.
pub proof fn lemma_changed_response_fails(
    public_key: RistrettoPoint,
    commitment: RistrettoPoint,
    signature: Signature,
    changed: Signature,
)
    requires
        is_canonical_scalar(signature.s.encoding()),
        is_canonical_scalar(changed.s.encoding()),
        changed.R == signature.R,
        changed.s.encoding() != signature.s.encoding(),
        signature_holds(public_key, commitment, signature),
    ensures
        !signature_holds(public_key, commitment, changed),
{
    if signature_holds(public_key, commitment, changed) {
        lemma_response_is_unique(public_key, commitment, signature, changed);
        lemma_le_value_injective(signature.s.encoding(), changed.s.encoding());
    }
}

} // verus!
