use zk_income::pedersen::{combine, PedersenCommitment, Sign};
use zk_income::ristretto::{CompressedRistretto, RistrettoPoint};
use zk_income::scalar::Scalar;

const BASEPOINT: [u8; 32] = [
    0xe2, 0xf2, 0xae, 0x0a, 0x6a, 0xbc, 0x4e, 0x71, 0xa8, 0x84, 0xa9, 0x61, 0xc5, 0x00, 0x51, 0x5f,
    0x58, 0xe3, 0x0b, 0x6a, 0xa5, 0x82, 0xdd, 0x8d, 0xb6, 0xa6, 0x59, 0x45, 0xe0, 0x8d, 0x2d, 0x76,
];

#[test]
fn test_homomorphic_property() {
    let pc = PedersenCommitment::new();

    let v1 = 100u64;
    let r1 = Scalar::random();
    let c1 = pc.commit(v1, r1);

    let v2 = 200u64;
    let r2 = Scalar::random();
    let c2 = pc.commit(v2, r2);

    let v_sum = v1 + v2;
    let r_sum = r1.add(&r2);
    let c_sum = pc.commit(v_sum, r_sum);

    assert_eq!(
        c1.add(&c2).compress(),
        c_sum.compress(),
        "Homomorphic property failed: C(v1)+C(v2) != C(v1+v2)"
    );
}

#[test]
fn homomorphic_property_holds_at_the_top_of_the_32_bit_range() {
    let pc = PedersenCommitment::new();
    let v1 = 0xffff_ffffu64;
    let v2 = 0xffff_ffffu64;
    let r1 = Scalar::random();
    let r2 = Scalar::random();
    let sum = pc.commit(v1, r1).add(&pc.commit(v2, r2));
    assert_eq!(sum.compress(), pc.commit(v1 + v2, r1.add(&r2)).compress());
}

#[test]
fn value_generator_is_the_basepoint() {
    let pc = PedersenCommitment::new();
    assert_eq!(pc.g.compress(), CompressedRistretto(BASEPOINT));
    assert_eq!(RistrettoPoint::basepoint().compress().to_bytes(), BASEPOINT);
}

#[test]
fn blinding_generator_is_the_sha512_hash_of_the_basepoint() {
    let pc = PedersenCommitment::new();
    let expected =
        curve25519_dalek::ristretto::RistrettoPoint::hash_from_bytes::<sha2::Sha512>(&BASEPOINT);
    assert_eq!(pc.h.compress().to_bytes(), expected.compress().to_bytes());
    assert_ne!(pc.h.compress(), pc.g.compress());
    // The same two generators every time.
    let again = PedersenCommitment::new();
    assert_eq!(again.h.compress(), pc.h.compress());
}

#[test]
fn commitment_to_zero_under_zero_is_the_identity() {
    let pc = PedersenCommitment::new();
    assert_eq!(pc.commit(0, Scalar::zero()).compress().to_bytes(), [0u8; 32]);
}

#[test]
fn commitment_to_one_under_zero_is_the_value_generator() {
    let pc = PedersenCommitment::new();
    assert_eq!(pc.commit(1, Scalar::zero()).compress().to_bytes(), BASEPOINT);
}

#[test]
fn commitment_to_zero_under_one_is_the_blinding_generator() {
    let pc = PedersenCommitment::new();
    assert_eq!(pc.commit(0, Scalar::one()).compress(), pc.h.compress());
}

#[test]
fn commitment_is_value_times_g_plus_blinding_times_h() {
    let pc = PedersenCommitment::new();
    let r = Scalar::random();
    let by_hand = pc.g.mul(&Scalar::from_u64(12345)).add(&pc.h.mul(&r));
    assert_eq!(pc.commit(12345, r).compress(), by_hand.compress());
}

#[test]
fn commitment_hides_behind_the_blinding_factor() {
    let pc = PedersenCommitment::new();
    let a = pc.commit(100, Scalar::from_u64(1));
    let b = pc.commit(100, Scalar::from_u64(2));
    assert_ne!(a.compress(), b.compress());
    assert!(!a.eq(&b));
    assert!(a.eq(&pc.commit(100, Scalar::from_u64(1))));
}

#[test]
fn combine_is_the_signed_sum() {
    let pc = PedersenCommitment::new();
    let (r1, r2, r3) = (Scalar::random(), Scalar::random(), Scalar::random());
    let c1 = pc.commit(100_000, r1);
    let c2 = pc.commit(40_000, r2);
    let c3 = pc.commit(25_000, r3);
    let combined = combine(&vec![(Sign::Plus, c1), (Sign::Minus, c2), (Sign::Minus, c3)]);
    let expected = pc.commit(35_000, r1.sub(&r2).sub(&r3));
    assert_eq!(combined.compress(), expected.compress());
}

#[test]
fn combine_of_a_commitment_and_its_negation_is_the_identity() {
    let pc = PedersenCommitment::new();
    let c = pc.commit(7, Scalar::random());
    let combined = combine(&vec![(Sign::Plus, c), (Sign::Minus, c)]);
    assert_eq!(combined.compress().to_bytes(), [0u8; 32]);
}

#[test]
fn combine_of_nothing_is_the_identity() {
    assert_eq!(combine(&vec![]).compress().to_bytes(), [0u8; 32]);
}

#[test]
fn combine_of_one_term_is_the_term() {
    let pc = PedersenCommitment::new();
    let c = pc.commit(9, Scalar::random());
    assert_eq!(combine(&vec![(Sign::Plus, c)]).compress(), c.compress());
}

#[test]
fn multiscalar_mul_weighs_each_point() {
    let g = RistrettoPoint::basepoint();
    let two_g = g.add(&g);
    let q = RistrettoPoint::multiscalar_mul(
        &vec![Scalar::from_u64(3), Scalar::from_u64(5)],
        &vec![g, two_g],
    );
    assert_eq!(q.compress(), g.mul(&Scalar::from_u64(13)).compress());
}

#[test]
fn point_addition_agrees_with_the_curve_library() {
    let g = curve25519_dalek::constants::RISTRETTO_BASEPOINT_POINT;
    let ours = RistrettoPoint::basepoint().mul(&Scalar::from_u64(5));
    let theirs = g * curve25519_dalek::scalar::Scalar::from(5u64);
    assert_eq!(ours.compress().to_bytes(), theirs.compress().to_bytes());
    let sum = ours.add(&RistrettoPoint::basepoint());
    assert_eq!(sum.compress().to_bytes(), (theirs + g).compress().to_bytes());
}

#[test]
fn hash_to_point_depends_on_its_input() {
    let a = RistrettoPoint::hash_from_bytes(b"one");
    let b = RistrettoPoint::hash_from_bytes(b"two");
    assert_ne!(a.compress(), b.compress());
    assert_eq!(a.compress(), RistrettoPoint::hash_from_bytes(b"one").compress());
}

#[test]
fn compressed_point_from_slice_checks_the_length() {
    assert_eq!(CompressedRistretto::from_slice(&BASEPOINT), Ok(CompressedRistretto(BASEPOINT)));
    assert!(CompressedRistretto::from_slice(&BASEPOINT[..31]).is_err());
    assert!(CompressedRistretto::from_slice(&[0u8; 64]).is_err());
    let c = CompressedRistretto(BASEPOINT);
    assert_eq!(c.as_bytes(), &BASEPOINT);
    assert_eq!(c.to_bytes(), BASEPOINT);
}

#[test]
fn decompress_refuses_what_is_no_point() {
    assert!(CompressedRistretto(BASEPOINT).decompress().is_some());
    assert!(CompressedRistretto([0xff; 32]).decompress().is_none());
    let mut tampered = BASEPOINT;
    tampered[0] ^= 1;
    assert!(CompressedRistretto(tampered).decompress().is_none());
    let p = CompressedRistretto(BASEPOINT).decompress().unwrap();
    assert_eq!(p.compress().to_bytes(), BASEPOINT);
}
