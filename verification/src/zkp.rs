use vstd::prelude::*;
use vstd::slice::slice_to_vec;
use crate::error::Error;
use crate::pedersen::{
    combine, lemma_commitments_subtract, signed_sum, PedersenCommitment, Sign,
};
use crate::ristretto::{
    encodes, is_point_encoding, point_index, ristretto_base_mul, CompressedRistretto,
    RistrettoPoint,
};
use crate::scalar::{is_canonical_scalar, reduce, sub_mod, Scalar};

verus! {

/// The bit width of every range proof of this protocol: the amount left over
/// is shown to lie in `[0, 2^32)`. Prover and verifier both use this width and
/// no other.
pub const RANGE_BITS: usize = 32;

/// The most generators that the proof system prepares for one party.
pub const GENERATOR_CAPACITY: usize = 64;

/// The domain-separation label of the proof transcript. No other proof of
/// this system uses it.
pub const TRANSCRIPT_LABEL: &'static str = "ZKP_Available_Funds";

#[verifier::external_type_specification]
#[verifier::external_body]
pub struct ExBulletproofGens(bulletproofs::BulletproofGens);

#[verifier::external_type_specification]
#[verifier::external_body]
pub struct ExProofError(bulletproofs::ProofError);

/// The 32-byte encoding of the group element that curve25519-dalek's
/// `RistrettoPoint::hash_from_bytes::<Sha3_512>` maps `data` to.
pub uninterp spec fn ristretto_from_sha3_512(data: Seq<u8>) -> Seq<u8>;

/// The 32 bytes of `bytes` that start at `32 * k`.
pub open spec fn word(bytes: Seq<u8>, k: int) -> Seq<u8> {
    bytes.subrange(32 * k, 32 * k + 32)
}

/// Whether `bytes` have the layout of a range proof: `2 * rounds + 9` words of
/// 32 bytes with fewer than 32 rounds (four points, three scalars, one pair
/// of points for each round, two scalars), in which each of the five scalars
/// is canonical.
pub open spec fn is_range_proof_encoding(bytes: Seq<u8>) -> bool {
    let words = bytes.len() / 32;
    &&& bytes.len() % 32 == 0
    &&& words >= 9
    &&& (words - 9) % 2 == 0
    &&& (words - 9) / 2 < 32
    &&& is_canonical_scalar(word(bytes, 4))
    &&& is_canonical_scalar(word(bytes, 5))
    &&& is_canonical_scalar(word(bytes, 6))
    &&& is_canonical_scalar(word(bytes, words - 2))
    &&& is_canonical_scalar(word(bytes, words - 1))
}

/// Whether the income covers what was used and what is requested.
pub open spec fn funds_suffice(income: u64, used: u64, requested: u64) -> bool {
    income >= used + requested
}

/// What is left of the income.
pub open spec fn available_funds(income: u64, used: u64, requested: u64) -> int {
    income - used - requested
}

/// Whether an amount can be shown to lie in the range of the proof.
pub open spec fn fits_range(amount: int) -> bool {
    0 <= amount < 0x1_0000_0000
}

/// The blinding factor of the commitment to what is left.
pub open spec fn available_blinding(income: nat, used: nat, requested: nat) -> nat {
    sub_mod(sub_mod(income, used), requested)
}

/// The index of `C_income - C_used - C_requested`.
pub open spec fn available_index(income: nat, used: nat, requested: nat) -> nat {
    reduce(income - used - requested)
}

/// Whether `scheme` is the commitment scheme of the range proofs: its value
/// generator is the basepoint, and its blinding generator is the SHA3-512
/// hash-to-group of the basepoint's encoding.
pub open spec fn is_proof_scheme(scheme: PedersenCommitment) -> bool {
    &&& scheme.g@ == 1
    &&& scheme.h.encoding() == ristretto_from_sha3_512(ristretto_base_mul(1))
    &&& scheme.h@ == point_index(ristretto_from_sha3_512(ristretto_base_mul(1)))
}

/// A range proof in its wire format. A value of this type always has the
/// layout of a proof; whether it proves anything is for the verifier to say.
pub struct RangeProof {
    bytes: Vec<u8>,
}

impl View for RangeProof {
    type V = Seq<u8>;

    closed spec fn view(&self) -> Seq<u8> {
        self.bytes@
    }
}

/// The prover and verifier of `income - used - requested >= 0`.
pub struct ZKProofSystem {
    pc_gens: PedersenCommitment,
    bp_gens: bulletproofs::BulletproofGens,
}

/// The blinding generator of `PedersenGens::default()` of bulletproofs,
/// compressed: the SHA3-512 hash-to-group of the basepoint's encoding. (Its
/// value generator is the basepoint itself.)
#[verifier::external_body]
fn bulletproofs_blinding_generator() -> (out: [u8; 32])
    ensures
        out@ == ristretto_from_sha3_512(ristretto_base_mul(1)),
        is_point_encoding(out@),
{
    bulletproofs::PedersenGens::default().B_blinding.compress().to_bytes()
}

/// `BulletproofGens::new` of bulletproofs: the generators for proofs of up to
/// `gens_capacity` bits by up to `party_capacity` parties.
#[verifier::external_body]
fn bulletproofs_gens(gens_capacity: usize, party_capacity: usize) -> bulletproofs::BulletproofGens {
    bulletproofs::BulletproofGens::new(gens_capacity, party_capacity)
}

/// `RangeProof::from_bytes` of bulletproofs, asked only whether it accepts: it
/// does exactly when the bytes have the layout of a range proof.
#[verifier::external_body]
fn bulletproofs_parses(bytes: &[u8]) -> (ok: bool)
    ensures
        ok == is_range_proof_encoding(bytes@),
{
    bulletproofs::RangeProof::from_bytes(bytes).is_ok()
}

/// `RangeProof::prove_single` of bulletproofs on a fresh merlin transcript
/// with the given label. The prover draws random numbers, so nothing is said
/// of the proof but its layout; the commitment that comes with it is the
/// commitment to `value` under `blinding` in the scheme `scheme`.
#[verifier::external_body]
fn bulletproofs_prove(
    gens: &bulletproofs::BulletproofGens,
    scheme: &PedersenCommitment,
    label: &'static str,
    value: u64,
    blinding: &Scalar,
    bits: usize,
) -> (r: Result<(Vec<u8>, [u8; 32]), bulletproofs::ProofError>)
    ensures
        r matches Ok(pair) ==> is_range_proof_encoding(pair.0@) && encodes(
            pair.1@,
            scheme.commit_spec(value as nat, blinding@),
        ),
{
    let b = curve25519_dalek::ristretto::CompressedRistretto(scheme.g.compress().to_bytes());
    let h = curve25519_dalek::ristretto::CompressedRistretto(scheme.h.compress().to_bytes());
    let pc = bulletproofs::PedersenGens {
        B: b.decompress().unwrap(),
        B_blinding: h.decompress().unwrap(),
    };
    let r = curve25519_dalek::scalar::Scalar::from_canonical_bytes(blinding.to_bytes()).unwrap();
    let mut transcript = merlin::Transcript::new(label.as_bytes());
    let (proof, commitment) = bulletproofs::RangeProof::prove_single(
        gens, &pc, &mut transcript, value, &r, bits,
    )?;
    Ok((proof.to_bytes(), commitment.to_bytes()))
}

/// `RangeProof::verify_single` of bulletproofs on a fresh merlin transcript
/// with the given label, for a proof in its wire format. The verifier draws a
/// random number to check all its equations at once, so its answer is not a
/// function of the arguments and nothing is claimed of it.
#[verifier::external_body]
fn bulletproofs_verify(
    gens: &bulletproofs::BulletproofGens,
    scheme: &PedersenCommitment,
    label: &'static str,
    commitment: &CompressedRistretto,
    proof: &RangeProof,
    bits: usize,
) -> bool {
    let b = curve25519_dalek::ristretto::CompressedRistretto(scheme.g.compress().to_bytes());
    let h = curve25519_dalek::ristretto::CompressedRistretto(scheme.h.compress().to_bytes());
    let pc = bulletproofs::PedersenGens {
        B: b.decompress().unwrap(),
        B_blinding: h.decompress().unwrap(),
    };
    let v = curve25519_dalek::ristretto::CompressedRistretto(commitment.0);
    let mut transcript = merlin::Transcript::new(label.as_bytes());
    match bulletproofs::RangeProof::from_bytes(&proof.bytes) {
        Ok(p) => p.verify_single(gens, &pc, &mut transcript, &v, bits).is_ok(),
        Err(_) => false,
    }
}

impl RangeProof {
    #[verifier::type_invariant]
    spec fn well_formed(self) -> bool {
        is_range_proof_encoding(self.bytes@)
    }

    /// Reads a proof off the wire, and refuses bytes that do not have the
    /// layout of one.
    pub fn from_bytes(bytes: &[u8]) -> (r: Result<RangeProof, Error>)
        ensures
            r is Ok <==> is_range_proof_encoding(bytes@),
            r matches Ok(proof) ==> proof@ == bytes@,
            r matches Err(e) ==> e == Error::MalformedProof,
    {
        if bulletproofs_parses(bytes) {
            Ok(RangeProof { bytes: slice_to_vec(bytes) })
        } else {
            Err(Error::MalformedProof)
        }
    }

    /// The wire format of the proof.
    pub fn to_bytes(&self) -> (bytes: Vec<u8>)
        ensures
            bytes@ == self@,
            is_range_proof_encoding(bytes@),
    {
        proof {
            use_type_invariant(self);
        }
        slice_to_vec(self.bytes.as_slice())
    }
}

/// Recombines the three public commitments into the commitment to what is
/// left, `C_income - C_used - C_requested`, and refuses if any of the three
/// is not the encoding of a group element.
pub fn available_commitment(
    c_income: &CompressedRistretto,
    c_used: &CompressedRistretto,
    c_rent: &CompressedRistretto,
) -> (r: Option<RistrettoPoint>)
    ensures
        r is Some <==> is_point_encoding(c_income.0@) && is_point_encoding(c_used.0@)
            && is_point_encoding(c_rent.0@),
        r matches Some(c) ==> c@ == available_index(
            point_index(c_income.0@),
            point_index(c_used.0@),
            point_index(c_rent.0@),
        ),
{
    let p_income = match c_income.decompress() {
        Some(p) => p,
        None => return None,
    };
    let p_used = match c_used.decompress() {
        Some(p) => p,
        None => return None,
    };
    let p_rent = match c_rent.decompress() {
        Some(p) => p,
        None => return None,
    };
    let terms = vec![(Sign::Plus, p_income), (Sign::Minus, p_used), (Sign::Minus, p_rent)];
    proof {
        let t2 = terms@.drop_last();
        let t1 = t2.drop_last();
        assert(terms@.last() == (Sign::Minus, p_rent));
        assert(t2.last() == (Sign::Minus, p_used));
        assert(t1.last() == (Sign::Plus, p_income));
        assert(signed_sum(t1.drop_last()) == 0);
        assert(signed_sum(t1) == p_income@);
        assert(signed_sum(t2) == p_income@ - p_used@);
        assert(signed_sum(terms@) == p_income@ - p_used@ - p_rent@);
    }
    Some(combine(&terms))
}

/// Turns what the prover handed back into the library's own types: the proof
/// with its commitment, or `ProvingFailed` where the prover gave up.
pub fn proving_outcome(outcome: Result<(Vec<u8>, [u8; 32]), bulletproofs::ProofError>) -> (r:
    Result<(RangeProof, CompressedRistretto), Error>)
    ensures
        outcome is Err ==> (r matches Err(e) && e == Error::ProvingFailed),
        outcome matches Ok(pair) ==> {
            if is_range_proof_encoding(pair.0@) {
                r matches Ok(made) && made.0@ == pair.0@ && made.1.0 == pair.1
            } else {
                r matches Err(e) && e == Error::MalformedProof
            }
        },
{
    match outcome {
        Err(_) => Err(Error::ProvingFailed),
        Ok(pair) => {
            let proof = RangeProof::from_bytes(pair.0.as_slice())?;
            Ok((proof, CompressedRistretto(pair.1)))
        },
    }
}

impl ZKProofSystem {
    #[verifier::type_invariant]
    spec fn standard_generators(self) -> bool {
        is_proof_scheme(self.pc_gens)
    }

    /// The commitment scheme that the proofs of this system are about.
    pub closed spec fn scheme(&self) -> PedersenCommitment {
        self.pc_gens
    }

    /// The proof system with its fixed parameters: the basepoint and its
    /// SHA3-512 hash-to-group as the two generators of the commitments, and
    /// generators for one party.
    pub fn new() -> (system: ZKProofSystem)
        ensures
            is_proof_scheme(system.scheme()),
    {
        let g = RistrettoPoint::basepoint();
        let h = RistrettoPoint::from_encoding(bulletproofs_blinding_generator());
        ZKProofSystem {
            pc_gens: PedersenCommitment { g, h },
            bp_gens: bulletproofs_gens(GENERATOR_CAPACITY, 1),
        }
    }

    /// The commitment scheme that the proofs of this system are about:
    /// commitments that are to be recombined by `verify_available_funds` are
    /// made with it.
    pub fn commitments(&self) -> (scheme: PedersenCommitment)
        ensures
            scheme == self.scheme(),
            is_proof_scheme(scheme),
    {
        proof {
            use_type_invariant(self);
        }
        self.pc_gens
    }

    /// Proves that `income - used - requested` lies in `[0, 2^32)`, without
    /// revealing any of the three amounts.
    ///
    /// The amounts are checked first, in plain integers: where the income does
    /// not cover `used + requested` the answer is `InsufficientFunds`, and
    /// where what is left does not fit 32 bits it is `ValueOutOfRange`; no
    /// proof is attempted in either case. Otherwise the prover is run on what
    /// is left and on the blinding factor `income - used - requested` of the
    /// three blinding factors. The commitment that comes back with the proof
    /// is the one that the verifier recombines from the three public
    /// commitments.
    pub fn prove_available_funds(
        &self,
        income_val: u64,
        income_blinding: Scalar,
        used_val: u64,
        used_blinding: Scalar,
        rent_val: u64,
        rent_blinding: Scalar,
    ) -> (r: Result<(RangeProof, CompressedRistretto), Error>)
        ensures
            !funds_suffice(income_val, used_val, rent_val) ==> (r matches Err(e) && e
                == Error::InsufficientFunds),
            funds_suffice(income_val, used_val, rent_val) && !fits_range(
                available_funds(income_val, used_val, rent_val),
            ) ==> (r matches Err(e) && e == Error::ValueOutOfRange),
            funds_suffice(income_val, used_val, rent_val) && fits_range(
                available_funds(income_val, used_val, rent_val),
            ) ==> match r {
                Ok(made) => {
                    &&& is_range_proof_encoding(made.0@)
                    &&& encodes(
                        made.1.0@,
                        self.scheme().commit_spec(
                            available_funds(income_val, used_val, rent_val) as nat,
                            available_blinding(income_blinding@, used_blinding@, rent_blinding@),
                        ),
                    )
                },
                Err(e) => e == Error::ProvingFailed,
            },
    {
        let spent = match used_val.checked_add(rent_val) {
            Some(total) => total,
            None => return Err(Error::InsufficientFunds),
        };
        if income_val < spent {
            return Err(Error::InsufficientFunds);
        }
        let available_val = income_val - spent;
        if available_val > 0xffff_ffff {
            return Err(Error::ValueOutOfRange);
        }
        let available_blinding = income_blinding.sub(&used_blinding).sub(&rent_blinding);
        let outcome = bulletproofs_prove(
            &self.bp_gens,
            &self.pc_gens,
            TRANSCRIPT_LABEL,
            available_val,
            &available_blinding,
            RANGE_BITS,
        );
        proving_outcome(outcome)
    }

    /// Checks a proof against `C_income - C_used - C_requested`, which is
    /// recombined here from the three public commitments.
    ///
    /// The answer is `false` where one of the three is not the encoding of a
    /// group element, and otherwise whatever the range-proof verifier says of
    /// the proof, the recombined commitment, this system's transcript label
    /// and its bit width.
    pub fn verify_available_funds(
        &self,
        c_income: CompressedRistretto,
        c_used: CompressedRistretto,
        c_rent: CompressedRistretto,
        proof: RangeProof,
    ) -> (valid: bool)
        ensures
            valid ==> is_point_encoding(c_income.0@) && is_point_encoding(c_used.0@)
                && is_point_encoding(c_rent.0@),
    {
        match available_commitment(&c_income, &c_used, &c_rent) {
            None => false,
            Some(c_available) => bulletproofs_verify(
                &self.bp_gens,
                &self.pc_gens,
                TRANSCRIPT_LABEL,
                &c_available.compress(),
                &proof,
                RANGE_BITS,
            ),
        }
    }
}

/// Prover and verifier speak of the same commitment: where the three public
/// commitments are commitments to `income`, `used` and `requested` in one
/// scheme, and the income covers the other two, the element that the verifier
/// recombines from them is the commitment to what is left under the blinding
/// factor that the prover computed.
pub proof fn lemma_recombined_commitment_opens(
    scheme: PedersenCommitment,
    income: u64,
    income_blinding: nat,
    used: u64,
    used_blinding: nat,
    requested: u64,
    requested_blinding: nat,
)
    requires
        funds_suffice(income, used, requested),
    ensures
        available_index(
            scheme.commit_spec(income as nat, income_blinding),
            scheme.commit_spec(used as nat, used_blinding),
            scheme.commit_spec(requested as nat, requested_blinding),
        ) == scheme.commit_spec(
            available_funds(income, used, requested) as nat,
            available_blinding(income_blinding, used_blinding, requested_blinding),
        ),
{
    lemma_commitments_subtract(
        scheme.g@,
        scheme.h@,
        income as nat,
        income_blinding,
        used as nat,
        used_blinding,
        requested as nat,
        requested_blinding,
    );
}

} // verus!
