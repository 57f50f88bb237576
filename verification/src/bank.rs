use vstd::prelude::*;
use vstd::string::*;
use ed25519_dalek::Signer;
use crate::encoding::{
    append_bytes, decode_hex, decode_point, encode_hex, hex_decoded, hex_encoded, is_hex, is_hex32,
};
use crate::error::Error;
use crate::pedersen::PedersenCommitment;
use crate::ristretto::{is_point_encoding, CompressedRistretto};
use crate::zkp::{is_proof_scheme, is_range_proof_encoding, RangeProof, ZKProofSystem};

verus! {

/// The text that opens every approval message, so that an approval cannot be
/// taken for a signature on anything else.
pub const APPROVAL_TAG: &'static str = "APPROVED:";

/// The Ed25519 signature of `message` under the secret key `secret`: what
/// ed25519-dalek's `SigningKey::sign` returns. Ed25519 signing draws no random
/// numbers.
pub uninterp spec fn ed25519_signature(secret: Seq<u8>, message: Seq<u8>) -> Seq<u8>;

/// The Ed25519 public key of the secret key `secret`: what ed25519-dalek's
/// `SigningKey::verifying_key` returns.
pub uninterp spec fn ed25519_public_key(secret: Seq<u8>) -> Seq<u8>;

/// The message that an approval signs: the tag, then the encodings of the
/// income commitment, of the used commitment and of the requested commitment,
/// in this order and each 32 bytes long.
pub open spec fn approval_message(c_income: Seq<u8>, c_used: Seq<u8>, c_rent: Seq<u8>) -> Seq<u8> {
    APPROVAL_TAG.spec_bytes() + c_income + c_used + c_rent
}

/// The relying party: it checks range proofs and counter-signs the ones that
/// hold. Its signing key is fixed when it is made and never leaves it.
pub struct Bank {
    signing_key: [u8; 32],
    zkp_system: ZKProofSystem,
}

/// `SigningKey::generate` of ed25519-dalek with the operating system's random
/// generator: the 32 bytes of a fresh secret key.
#[verifier::external_body]
fn ed25519_generate() -> [u8; 32] {
    ed25519_dalek::SigningKey::generate(&mut rand::rngs::OsRng).to_bytes()
}

/// `SigningKey::sign` of ed25519-dalek, for the signing key with the secret
/// `secret`: the 64 bytes of the signature of `message`.
#[verifier::external_body]
fn ed25519_sign(secret: &[u8; 32], message: &[u8]) -> (signature: [u8; 64])
    ensures
        signature@ == ed25519_signature(secret@, message@),
{
    ed25519_dalek::SigningKey::from_bytes(secret).sign(message).to_bytes()
}

/// `SigningKey::verifying_key` of ed25519-dalek, for the signing key with the
/// secret `secret`: the 32 bytes of its public key.
#[verifier::external_body]
fn ed25519_verifying_key(secret: &[u8; 32]) -> (key: [u8; 32])
    ensures
        key@ == ed25519_public_key(secret@),
{
    ed25519_dalek::SigningKey::from_bytes(secret).verifying_key().to_bytes()
}

/// Two approval messages are the same only if they are about the same three
/// commitments in the same order.
pub proof fn lemma_approval_message_injective(
    c_income: Seq<u8>,
    c_used: Seq<u8>,
    c_rent: Seq<u8>,
    d_income: Seq<u8>,
    d_used: Seq<u8>,
    d_rent: Seq<u8>,
)
    requires
        c_income.len() == 32 && c_used.len() == 32 && c_rent.len() == 32,
        d_income.len() == 32 && d_used.len() == 32 && d_rent.len() == 32,
        approval_message(c_income, c_used, c_rent) == approval_message(d_income, d_used, d_rent),
    ensures
        c_income == d_income,
        c_used == d_used,
        c_rent == d_rent,
{
    let tag = APPROVAL_TAG.spec_bytes();
    let n = tag.len() as int;
    let m = approval_message(c_income, c_used, c_rent);
    let w = approval_message(d_income, d_used, d_rent);
    assert(c_income =~= m.subrange(n, n + 32));
    assert(d_income =~= w.subrange(n, n + 32));
    assert(c_used =~= m.subrange(n + 32, n + 64));
    assert(d_used =~= w.subrange(n + 32, n + 64));
    assert(c_rent =~= m.subrange(n + 64, n + 96));
    assert(d_rent =~= w.subrange(n + 64, n + 96));
}

/// Builds the message that an approval of the three commitments signs.
pub fn build_approval_message(
    c_income: &CompressedRistretto,
    c_used: &CompressedRistretto,
    c_rent: &CompressedRistretto,
) -> (message: Vec<u8>)
    ensures
        message@ == approval_message(c_income.0@, c_used.0@, c_rent.0@),
{
    let mut message: Vec<u8> = Vec::new();
    append_bytes(&mut message, APPROVAL_TAG.as_bytes());
    append_bytes(&mut message, c_income.as_bytes().as_slice());
    append_bytes(&mut message, c_used.as_bytes().as_slice());
    append_bytes(&mut message, c_rent.as_bytes().as_slice());
    assert(message@ =~= approval_message(c_income.0@, c_used.0@, c_rent.0@));
    message
}

impl Bank {
    /// The secret half of the signing key.
    pub closed spec fn secret(&self) -> Seq<u8> {
        self.signing_key@
    }

    /// The approval of the three commitments, as this bank signs it: the hex
    /// form of its Ed25519 signature of the approval message.
    pub open spec fn approval_spec(
        &self,
        c_income: Seq<u8>,
        c_used: Seq<u8>,
        c_rent: Seq<u8>,
    ) -> Seq<char> {
        hex_encoded(ed25519_signature(self.secret(), approval_message(c_income, c_used, c_rent)))
    }

    /// The commitment scheme of the range proofs that this bank checks.
    pub closed spec fn scheme(&self) -> PedersenCommitment {
        self.zkp_system.scheme()
    }

    /// A bank with a fresh signing key from the operating system's random
    /// generator. Whatever key was drawn, the bank checks range proofs about
    /// the commitment scheme of the protocol.
    pub fn new() -> (bank: Bank)
        ensures
            is_proof_scheme(bank.scheme()),
    {
        Bank::from_signing_key(ed25519_generate())
    }

    /// A bank with the given secret key, which checks range proofs about the
    /// commitment scheme of the protocol.
    pub fn from_signing_key(secret: [u8; 32]) -> (bank: Bank)
        ensures
            bank.secret() == secret@,
            is_proof_scheme(bank.scheme()),
    {
        Bank { signing_key: secret, zkp_system: ZKProofSystem::new() }
    }

    /// Turns the verifier's verdict into the bank's answer: for a proof that
    /// holds, the signed approval of the three commitments; for one that does
    /// not, `ProofInvalid`, which says nothing of which commitment was at
    /// fault.
    pub fn approval(
        &self,
        valid: bool,
        c_income: CompressedRistretto,
        c_used: CompressedRistretto,
        c_rent: CompressedRistretto,
    ) -> (r: Result<String, Error>)
        ensures
            valid ==> (r matches Ok(text) && text@ == self.approval_spec(
                c_income.0@,
                c_used.0@,
                c_rent.0@,
            )),
            !valid ==> (r matches Err(e) && e == Error::ProofInvalid),
    {
        if valid {
            let message = build_approval_message(&c_income, &c_used, &c_rent);
            let signature = ed25519_sign(&self.signing_key, message.as_slice());
            Ok(encode_hex(signature.as_slice()))
        } else {
            Err(Error::ProofInvalid)
        }
    }

    /// Checks a range proof for three public commitments and, if it holds,
    /// signs the approval.
    ///
    /// Bytes that do not have the layout of a proof are answered with
    /// `MalformedProof`. A proof with the right layout is handed to the
    /// verifier: the answer is then either the signed approval, and only if
    /// all three commitments are encodings of group elements, or
    /// `ProofInvalid`.
    pub fn process_verification_request(
        &self,
        c_income: CompressedRistretto,
        c_used: CompressedRistretto,
        c_rent: CompressedRistretto,
        proof_bytes: &[u8],
    ) -> (r: Result<String, Error>)
        ensures
            !is_range_proof_encoding(proof_bytes@) ==> (r matches Err(e) && e
                == Error::MalformedProof),
            is_range_proof_encoding(proof_bytes@) ==> match r {
                Ok(text) => {
                    &&& text@ == self.approval_spec(c_income.0@, c_used.0@, c_rent.0@)
                    &&& is_point_encoding(c_income.0@)
                    &&& is_point_encoding(c_used.0@)
                    &&& is_point_encoding(c_rent.0@)
                },
                Err(e) => e == Error::ProofInvalid,
            },
    {
        let proof = RangeProof::from_bytes(proof_bytes)?;
        let valid = self.zkp_system.verify_available_funds(c_income, c_used, c_rent, proof);
        self.approval(valid, c_income, c_used, c_rent)
    }

    /// The same check for a request that arrives as hex text: the three
    /// commitments and the proof are decoded first, and text that is not hex,
    /// or a commitment that is not 32 bytes long, is answered with
    /// `InvalidEncoding`.
    pub fn handle_verification(
        &self,
        c_income_hex: &str,
        c_used_hex: &str,
        c_rent_hex: &str,
        proof_hex: &str,
    ) -> (r: Result<String, Error>)
        ensures
            !(is_hex32(c_income_hex@) && is_hex32(c_used_hex@) && is_hex32(c_rent_hex@) && is_hex(
                proof_hex@,
            )) ==> (r matches Err(e) && e == Error::InvalidEncoding),
            is_hex32(c_income_hex@) && is_hex32(c_used_hex@) && is_hex32(c_rent_hex@) && is_hex(
                proof_hex@,
            ) ==> {
                if !is_range_proof_encoding(hex_decoded(proof_hex@)) {
                    r matches Err(e) && e == Error::MalformedProof
                } else {
                    match r {
                        Ok(text) => {
                            &&& text@ == self.approval_spec(
                                hex_decoded(c_income_hex@),
                                hex_decoded(c_used_hex@),
                                hex_decoded(c_rent_hex@),
                            )
                            &&& is_point_encoding(hex_decoded(c_income_hex@))
                            &&& is_point_encoding(hex_decoded(c_used_hex@))
                            &&& is_point_encoding(hex_decoded(c_rent_hex@))
                        },
                        Err(e) => e == Error::ProofInvalid,
                    }
                }
            },
    {
        let c_income = decode_point(c_income_hex)?;
        let c_used = decode_point(c_used_hex)?;
        let c_rent = decode_point(c_rent_hex)?;
        let proof_bytes = decode_hex(proof_hex)?;
        self.process_verification_request(c_income, c_used, c_rent, proof_bytes.as_slice())
    }

    /// The public key under which this bank's approvals verify, as hex.
    pub fn get_public_key_hex(&self) -> (text: String)
        ensures
            text@ == hex_encoded(ed25519_public_key(self.secret())),
    {
        let key = ed25519_verifying_key(&self.signing_key);
        encode_hex(key.as_slice())
    }
}

} // verus!
