use vstd::prelude::*;
use vstd::string::*;
use crate::encoding::{decode_scalar, encode_hex, hex_decoded, hex_encoded, is_hex, is_hex32};
use crate::error::Error;
use crate::pedersen::{commitment_index, PedersenCommitment};
use crate::ristretto::{point_index, ristretto_base_mul, ristretto_from_sha512};
use crate::scalar::{is_canonical_scalar, le_value, Scalar};
use crate::zkp::{
    available_funds, fits_range, funds_suffice, is_range_proof_encoding, ristretto_from_sha3_512,
    ZKProofSystem,
};

verus! {

/// The encoding of the commitment to `value` under `blinding` in the scheme
/// of `PedersenCommitment::new`.
pub open spec fn commitment_encoding(value: u64, blinding: nat) -> Seq<u8> {
    ristretto_base_mul(
        commitment_index(
            1,
            point_index(ristretto_from_sha512(ristretto_base_mul(1))),
            value as nat,
            blinding,
        ),
    )
}

/// The encoding of the commitment to `value` under `blinding` in the scheme
/// of the range proofs.
pub open spec fn proof_commitment_encoding(value: u64, blinding: nat) -> Seq<u8> {
    ristretto_base_mul(
        commitment_index(
            1,
            point_index(ristretto_from_sha3_512(ristretto_base_mul(1))),
            value as nat,
            blinding,
        ),
    )
}

/// Whether `text` is the hex form of the canonical encoding of a scalar.
pub open spec fn is_scalar_hex(text: Seq<char>) -> bool {
    is_hex32(text) && is_canonical_scalar(hex_decoded(text))
}

/// Commits to `value` under `blinding` and writes both down as hex: first the
/// commitment, then the blinding factor that opens it.
pub fn commitment_hex(value: u64, blinding: Scalar) -> (out: Vec<String>)
    ensures
        out@.len() == 2,
        out@[0]@ == hex_encoded(commitment_encoding(value, blinding@)),
        out@[1]@ == hex_encoded(blinding.encoding()),
{
    let pc = PedersenCommitment::new();
    let commitment = pc.commit(value, blinding);
    let c_bytes = commitment.compress().to_bytes();
    let b_bytes = blinding.to_bytes();
    vec![encode_hex(c_bytes.as_slice()), encode_hex(b_bytes.as_slice())]
}

/// Commits to `value` under a fresh random blinding factor, in the scheme of
/// `PedersenCommitment::new`. What comes back is the commitment and the
/// blinding factor, both as hex; the blinding factor is the holder's secret.
pub fn generate_commitment(value: u64) -> (out: Vec<String>)
    ensures
        out@.len() == 2,
        exists|blinding: Seq<u8>|
            {
                &&& is_canonical_scalar(blinding)
                &&& out@[0]@ == hex_encoded(
                    #[trigger] commitment_encoding(value, le_value(blinding)),
                )
                &&& out@[1]@ == hex_encoded(blinding)
            },
{
    let blinding = Scalar::random();
    let out = commitment_hex(value, blinding);
    assert(out@[0]@ == hex_encoded(commitment_encoding(value, le_value(blinding.encoding()))));
    out
}

/// Proves `income - used - rent >= 0` for a holder whose three blinding
/// factors arrive as hex, and writes the proof down as hex.
///
/// A blinding factor that is not the hex form of a canonical scalar is
/// answered with `InvalidEncoding` before anything else is looked at.
pub fn generate_proof(
    income: u64,
    income_blinding_hex: String,
    used: u64,
    used_blinding_hex: String,
    rent: u64,
    rent_blinding_hex: String,
) -> (r: Result<String, Error>)
    ensures
        !(is_scalar_hex(income_blinding_hex@) && is_scalar_hex(used_blinding_hex@)
            && is_scalar_hex(rent_blinding_hex@)) ==> (r matches Err(e) && e
            == Error::InvalidEncoding),
        is_scalar_hex(income_blinding_hex@) && is_scalar_hex(used_blinding_hex@) && is_scalar_hex(
            rent_blinding_hex@,
        ) ==> {
            if !funds_suffice(income, used, rent) {
                r matches Err(e) && e == Error::InsufficientFunds
            } else if !fits_range(available_funds(income, used, rent)) {
                r matches Err(e) && e == Error::ValueOutOfRange
            } else {
                match r {
                    Ok(text) => is_hex(text@) && is_range_proof_encoding(hex_decoded(text@)),
                    Err(e) => e == Error::ProvingFailed,
                }
            }
        },
{
    let i_blinding = decode_scalar(income_blinding_hex.as_str())?;
    let u_blinding = decode_scalar(used_blinding_hex.as_str())?;
    let r_blinding = decode_scalar(rent_blinding_hex.as_str())?;
    let zkp = ZKProofSystem::new();
    let (proof, _) = zkp.prove_available_funds(
        income,
        i_blinding,
        used,
        u_blinding,
        rent,
        r_blinding,
    )?;
    let proof_bytes = proof.to_bytes();
    Ok(encode_hex(proof_bytes.as_slice()))
}

/// What a holder hands over to show that an income reaches a threshold: the
/// proof and the commitment to the income, both as hex, and the threshold in
/// the clear.
pub struct ThresholdProof {
    pub proof_hex: String,
    pub c_income_hex: String,
    pub threshold: u64,
}

/// Proves that `salary - threshold` lies in `[0, 2^32)` under the blinding
/// factor `blinding`.
///
/// The proof is the proof of available funds for the income `salary`, nothing
/// used, and `threshold` requested, where the last two are committed under
/// the blinding factor 0: a verifier who knows the threshold makes these two
/// commitments itself.
pub fn threshold_proof(salary: u64, threshold: u64, blinding: Scalar) -> (r: Result<
    ThresholdProof,
    Error,
>)
    ensures
        salary < threshold ==> (r matches Err(e) && e == Error::InsufficientFunds),
        salary >= threshold && salary - threshold >= 0x1_0000_0000 ==> (r matches Err(e) && e
            == Error::ValueOutOfRange),
        salary >= threshold && salary - threshold < 0x1_0000_0000 ==> match r {
            Ok(made) => {
                &&& made.threshold == threshold
                &&& made.c_income_hex@ == hex_encoded(
                    proof_commitment_encoding(salary, blinding@),
                )
                &&& is_hex(made.proof_hex@)
                &&& is_range_proof_encoding(hex_decoded(made.proof_hex@))
            },
            Err(e) => e == Error::ProvingFailed,
        },
{
    let zkp = ZKProofSystem::new();
    let c_income = zkp.commitments().commit(salary, blinding).compress();
    let (proof, _) = zkp.prove_available_funds(
        salary,
        blinding,
        0,
        Scalar::zero(),
        threshold,
        Scalar::zero(),
    )?;
    let proof_bytes = proof.to_bytes();
    Ok(
        ThresholdProof {
            proof_hex: encode_hex(proof_bytes.as_slice()),
            c_income_hex: encode_hex(c_income.as_bytes().as_slice()),
            threshold,
        },
    )
}

/// Proves that `salary` reaches `threshold` under a fresh random blinding
/// factor, which is dropped when the proof is made: what comes back holds
/// nothing secret.
pub fn prove_threshold(salary: u64, threshold: u64) -> (r: Result<ThresholdProof, Error>)
    ensures
        salary < threshold ==> (r matches Err(e) && e == Error::InsufficientFunds),
        salary >= threshold && salary - threshold >= 0x1_0000_0000 ==> (r matches Err(e) && e
            == Error::ValueOutOfRange),
        salary >= threshold && salary - threshold < 0x1_0000_0000 ==> match r {
            Ok(made) => {
                &&& made.threshold == threshold
                &&& exists|blinding: Seq<u8>|
                    is_canonical_scalar(blinding) && made.c_income_hex@ == hex_encoded(
                        #[trigger] proof_commitment_encoding(salary, le_value(blinding)),
                    )
                &&& is_hex(made.proof_hex@)
                &&& is_range_proof_encoding(hex_decoded(made.proof_hex@))
            },
            Err(e) => e == Error::ProvingFailed,
        },
{
    let blinding = Scalar::random();
    let r = threshold_proof(salary, threshold, blinding);
    assert(r matches Ok(made) ==> made.c_income_hex@ == hex_encoded(
        proof_commitment_encoding(salary, le_value(blinding.encoding())),
    ));
    r
}

} // verus!
