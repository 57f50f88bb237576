use ed25519_dalek::Verifier;
use zk_income::bank::{build_approval_message, Bank};
use zk_income::encoding::{decode_hex, encode_hex};
use zk_income::error::Error;
use zk_income::ristretto::CompressedRistretto;
use zk_income::scalar::Scalar;
use zk_income::zkp::ZKProofSystem;

// The first test vector of RFC 8032.
const SECRET: [u8; 32] = [
    0x9d, 0x61, 0xb1, 0x9d, 0xef, 0xfd, 0x5a, 0x60, 0xba, 0x84, 0x4a, 0xf4, 0x92, 0xec, 0x2c, 0xc4,
    0x44, 0x49, 0xc5, 0x69, 0x7b, 0x32, 0x69, 0x19, 0x70, 0x3b, 0xac, 0x03, 0x1c, 0xae, 0x7f, 0x60,
];
const PUBLIC_HEX: &str = "d75a980182b10ab7d54bfed3c964073a0ee172f3daa62325af021a68f707511a";

struct Request {
    c_income: CompressedRistretto,
    c_used: CompressedRistretto,
    c_rent: CompressedRistretto,
    proof: Vec<u8>,
}

fn request(income: u64, used: u64, rent: u64) -> Request {
    let zkp = ZKProofSystem::new();
    let (ri, ru, rr) = (Scalar::random(), Scalar::random(), Scalar::random());
    let (proof, _) = zkp.prove_available_funds(income, ri, used, ru, rent, rr).ok().expect("a proof");
    Request {
        c_income: zkp.commitments().commit(income, ri).compress(),
        c_used: zkp.commitments().commit(used, ru).compress(),
        c_rent: zkp.commitments().commit(rent, rr).compress(),
        proof: proof.to_bytes(),
    }
}

fn approval_verifies(bank: &Bank, request: &Request, signature_hex: &str) -> bool {
    let key_bytes: [u8; 32] =
        decode_hex(&bank.get_public_key_hex()).unwrap().try_into().expect("32 bytes");
    let key = ed25519_dalek::VerifyingKey::from_bytes(&key_bytes).expect("a public key");
    let signature_bytes: [u8; 64] = decode_hex(signature_hex).unwrap().try_into().expect("64 bytes");
    let signature = ed25519_dalek::Signature::from_bytes(&signature_bytes);
    let message = build_approval_message(&request.c_income, &request.c_used, &request.c_rent);
    key.verify(&message, &signature).is_ok()
}

#[test]
fn public_key_belongs_to_the_signing_key() {
    let bank = Bank::from_signing_key(SECRET);
    assert_eq!(bank.get_public_key_hex(), PUBLIC_HEX);
}

#[test]
fn fresh_banks_have_different_keys() {
    let a = Bank::new();
    let b = Bank::new();
    assert_ne!(a.get_public_key_hex(), b.get_public_key_hex());
    assert_eq!(a.get_public_key_hex().len(), 64);
    assert_eq!(a.get_public_key_hex(), a.get_public_key_hex());
}

#[test]
fn approval_message_is_the_tag_and_the_three_commitments() {
    let a = CompressedRistretto([1u8; 32]);
    let b = CompressedRistretto([2u8; 32]);
    let c = CompressedRistretto([3u8; 32]);
    let message = build_approval_message(&a, &b, &c);
    let mut expected = b"APPROVED:".to_vec();
    expected.extend_from_slice(&[1u8; 32]);
    expected.extend_from_slice(&[2u8; 32]);
    expected.extend_from_slice(&[3u8; 32]);
    assert_eq!(message, expected);
    assert_ne!(build_approval_message(&b, &a, &c), message);
}

#[test]
fn valid_request_is_approved_with_a_signature_that_verifies() {
    let bank = Bank::new();
    let r = request(100_000, 40_000, 40_000);
    let signature_hex = bank
        .process_verification_request(r.c_income, r.c_used, r.c_rent, &r.proof)
        .expect("the request is approved");
    assert_eq!(signature_hex.len(), 128);
    assert!(approval_verifies(&bank, &r, &signature_hex));
}

#[test]
fn approval_is_the_ed25519_signature_of_the_approval_message() {
    let bank = Bank::from_signing_key(SECRET);
    let r = request(100_000, 0, 40_000);
    let signature_hex = bank
        .process_verification_request(r.c_income, r.c_used, r.c_rent, &r.proof)
        .expect("the request is approved");
    let key = ed25519_dalek::SigningKey::from_bytes(&SECRET);
    let message = build_approval_message(&r.c_income, &r.c_used, &r.c_rent);
    let expected = ed25519_dalek::Signer::sign(&key, &message).to_bytes();
    assert_eq!(signature_hex, encode_hex(&expected));
    // Signing draws no random numbers.
    let again = bank.approval(true, r.c_income, r.c_used, r.c_rent);
    assert_eq!(again, Ok(signature_hex));
}

#[test]
fn approval_follows_the_verdict() {
    let bank = Bank::from_signing_key(SECRET);
    let a = CompressedRistretto([1u8; 32]);
    let b = CompressedRistretto([2u8; 32]);
    let c = CompressedRistretto([3u8; 32]);
    assert_eq!(bank.approval(false, a, b, c), Err(Error::ProofInvalid));
    let approved = bank.approval(true, a, b, c).expect("approved");
    let other = bank.approval(true, b, a, c).expect("approved");
    assert_ne!(approved, other);
}

#[test]
fn malformed_proof_is_told_apart_from_an_invalid_one() {
    let bank = Bank::new();
    let r = request(100_000, 40_000, 40_000);
    let truncated = &r.proof[..r.proof.len() - 1];
    assert_eq!(
        bank.process_verification_request(r.c_income, r.c_used, r.c_rent, truncated),
        Err(Error::MalformedProof)
    );
    assert_eq!(
        bank.process_verification_request(r.c_income, r.c_used, r.c_rent, &[]),
        Err(Error::MalformedProof)
    );
    let mut oversized = r.proof.clone();
    oversized.extend_from_slice(&[0u8; 32]);
    assert_eq!(
        bank.process_verification_request(r.c_income, r.c_used, r.c_rent, &oversized),
        Err(Error::MalformedProof)
    );
    let nonsense = vec![0u8; 32 * 19];
    assert_eq!(
        bank.process_verification_request(r.c_income, r.c_used, r.c_rent, &nonsense),
        Err(Error::ProofInvalid)
    );
}

#[test]
fn request_with_a_substituted_commitment_is_rejected() {
    let bank = Bank::new();
    let r = request(100_000, 40_000, 40_000);
    let other = request(100_000, 40_000, 40_000);
    assert_eq!(
        bank.process_verification_request(other.c_income, r.c_used, r.c_rent, &r.proof),
        Err(Error::ProofInvalid)
    );
    assert_eq!(
        bank.process_verification_request(r.c_income, other.c_used, r.c_rent, &r.proof),
        Err(Error::ProofInvalid)
    );
    assert_eq!(
        bank.process_verification_request(r.c_income, r.c_used, other.c_rent, &r.proof),
        Err(Error::ProofInvalid)
    );
}

#[test]
fn request_with_an_invalid_commitment_is_rejected() {
    let bank = Bank::new();
    let r = request(100_000, 40_000, 40_000);
    let junk = CompressedRistretto([0xff; 32]);
    assert_eq!(
        bank.process_verification_request(junk, r.c_used, r.c_rent, &r.proof),
        Err(Error::ProofInvalid)
    );
}

#[test]
fn hex_request_is_decoded_and_approved() {
    let bank = Bank::new();
    let r = request(100_000, 40_000, 40_000);
    let signature_hex = bank
        .handle_verification(
            &encode_hex(r.c_income.as_bytes()),
            &encode_hex(r.c_used.as_bytes()),
            &encode_hex(r.c_rent.as_bytes()),
            &encode_hex(&r.proof),
        )
        .expect("the request is approved");
    assert!(approval_verifies(&bank, &r, &signature_hex));
}

#[test]
fn hex_request_with_bad_encodings_is_refused() {
    let bank = Bank::new();
    let r = request(100_000, 40_000, 40_000);
    let ci = encode_hex(r.c_income.as_bytes());
    let cu = encode_hex(r.c_used.as_bytes());
    let cr = encode_hex(r.c_rent.as_bytes());
    let proof = encode_hex(&r.proof);
    assert_eq!(bank.handle_verification("xyz", &cu, &cr, &proof), Err(Error::InvalidEncoding));
    assert_eq!(bank.handle_verification(&ci[..62], &cu, &cr, &proof), Err(Error::InvalidEncoding));
    assert_eq!(bank.handle_verification(&ci, "", &cr, &proof), Err(Error::InvalidEncoding));
    let long = format!("{}00", cr);
    assert_eq!(bank.handle_verification(&ci, &cu, &long, &proof), Err(Error::InvalidEncoding));
    assert_eq!(bank.handle_verification(&ci, &cu, &cr, "0"), Err(Error::InvalidEncoding));
    assert_eq!(bank.handle_verification(&ci, &cu, &cr, "zz"), Err(Error::InvalidEncoding));
    assert_eq!(bank.handle_verification(&ci, &cu, &cr, ""), Err(Error::MalformedProof));
    assert_eq!(bank.handle_verification(&ci, &cu, &cr, &proof[2..]), Err(Error::MalformedProof));
    assert_eq!(bank.handle_verification(&cu, &ci, &cr, &proof), Err(Error::ProofInvalid));
}
