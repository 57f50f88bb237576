use zk_income::scalar::Scalar;

// l - 1, the largest canonical scalar, in little-endian bytes.
const L_MINUS_ONE: [u8; 32] = [
    0xec, 0xd3, 0xf5, 0x5c, 0x1a, 0x63, 0x12, 0x58, 0xd6, 0x9c, 0xf7, 0xa2, 0xde, 0xf9, 0xde, 0x14,
    0x00, 0x00, 0x00, 0x00, 0x00, 0x00, 0x00, 0x00, 0x00, 0x00, 0x00, 0x00, 0x00, 0x00, 0x00, 0x10,
];

// l itself: the smallest integer that is not canonical.
const L: [u8; 32] = [
    0xed, 0xd3, 0xf5, 0x5c, 0x1a, 0x63, 0x12, 0x58, 0xd6, 0x9c, 0xf7, 0xa2, 0xde, 0xf9, 0xde, 0x14,
    0x00, 0x00, 0x00, 0x00, 0x00, 0x00, 0x00, 0x00, 0x00, 0x00, 0x00, 0x00, 0x00, 0x00, 0x00, 0x10,
];

fn word(low: u8) -> [u8; 32] {
    let mut bytes = [0u8; 32];
    bytes[0] = low;
    bytes
}

#[test]
fn scalar_addition_wraps_at_the_group_order() {
    let a = Scalar::from_canonical_bytes(L_MINUS_ONE).expect("l - 1 is canonical");
    let sum = a.add(&Scalar::from_u64(3));
    assert_eq!(sum.to_bytes(), word(2));
}

#[test]
fn scalar_subtraction_wraps_at_the_group_order() {
    let difference = Scalar::zero().sub(&Scalar::one());
    assert_eq!(difference.to_bytes(), L_MINUS_ONE);
    let back = difference.add(&Scalar::one());
    assert_eq!(back.to_bytes(), [0u8; 32]);
}

#[test]
fn scalar_multiplication_is_exact_on_small_numbers() {
    let product = Scalar::from_u64(6).mul(&Scalar::from_u64(7));
    assert_eq!(product.to_bytes(), word(42));
}

#[test]
fn scalar_multiplication_wraps_at_the_group_order() {
    // (l - 1) * (l - 1) = 1 modulo l.
    let a = Scalar::from_canonical_bytes(L_MINUS_ONE).expect("l - 1 is canonical");
    assert_eq!(a.mul(&a).to_bytes(), word(1));
}

#[test]
fn from_u64_is_little_endian() {
    let bytes = Scalar::from_u64(0x0102_0304_0506_0708).to_bytes();
    let mut expected = [0u8; 32];
    expected[..8].copy_from_slice(&[8, 7, 6, 5, 4, 3, 2, 1]);
    assert_eq!(bytes, expected);
    assert_eq!(Scalar::from_u64(u64::MAX).to_bytes()[..8], [0xff; 8]);
    assert_eq!(Scalar::from_u64(u64::MAX).to_bytes()[8..], [0u8; 24]);
}

#[test]
fn zero_and_one_have_their_encodings() {
    assert_eq!(Scalar::zero().to_bytes(), [0u8; 32]);
    assert_eq!(Scalar::one().to_bytes(), word(1));
}

#[test]
fn from_canonical_bytes_accepts_exactly_what_is_below_the_order() {
    let top = Scalar::from_canonical_bytes(L_MINUS_ONE).expect("l - 1 is canonical");
    assert_eq!(top.to_bytes(), L_MINUS_ONE);
    assert!(Scalar::from_canonical_bytes(L).is_none());
    assert!(Scalar::from_canonical_bytes([0xff; 32]).is_none());
    let mut high_bit = [0u8; 32];
    high_bit[31] = 0x80;
    assert!(Scalar::from_canonical_bytes(high_bit).is_none());
    assert!(Scalar::from_canonical_bytes([0u8; 32]).is_some());
}

#[test]
fn hash_from_bytes_reduces_the_sha512_digest() {
    let text = "To really appreciate architecture, you may even need to commit a murder.\
While the programs used for The Manhattan Transcripts are of the most extreme\
nature, they also parallel the most common formula plot: the archetype of\
murder. Other phantasms were occasionally used to underline the fact that\
perhaps all architecture, rather than being about functional standards, is\
about love and death.";
    let s = Scalar::hash_from_bytes(text.as_bytes());
    assert_eq!(
        s.to_bytes(),
        [
            21, 88, 208, 252, 63, 122, 210, 152, 154, 38, 15, 23, 16, 167, 80, 150, 192, 221, 77,
            226, 62, 25, 224, 148, 239, 48, 176, 10, 185, 69, 168, 11,
        ]
    );
}

#[test]
fn hash_from_bytes_depends_on_its_input() {
    let a = Scalar::hash_from_bytes(b"income");
    let b = Scalar::hash_from_bytes(b"incomf");
    assert_ne!(a.to_bytes(), b.to_bytes());
    assert_eq!(a.to_bytes(), Scalar::hash_from_bytes(b"income").to_bytes());
}

#[test]
fn random_scalars_are_canonical_and_differ() {
    let a = Scalar::random();
    let b = Scalar::random();
    assert_ne!(a.to_bytes(), b.to_bytes());
    assert!(Scalar::from_canonical_bytes(a.to_bytes()).is_some());
    assert!(Scalar::from_canonical_bytes(b.to_bytes()).is_some());
}

#[test]
fn scalar_arithmetic_agrees_with_the_curve_library() {
    let a = Scalar::random();
    let b = Scalar::random();
    let x = curve25519_dalek::scalar::Scalar::from_canonical_bytes(a.to_bytes()).unwrap();
    let y = curve25519_dalek::scalar::Scalar::from_canonical_bytes(b.to_bytes()).unwrap();
    assert_eq!(a.add(&b).to_bytes(), (x + y).to_bytes());
    assert_eq!(a.sub(&b).to_bytes(), (x - y).to_bytes());
    assert_eq!(a.mul(&b).to_bytes(), (x * y).to_bytes());
}
