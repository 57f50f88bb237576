use vstd::prelude::*;
use vstd::arithmetic::div_mod::lemma_mod_bound;

verus! {

/// The order of the Ristretto group:
/// `2^252 + 27742317777372353535851937790883648493`.
pub open spec fn group_order() -> nat {
    7237005577332262213973186563042994240857116359379907606001950938285454250989nat
}

/// The representative of `x` modulo the group order, between 0 and the order.
pub open spec fn reduce(x: int) -> nat {
    (x % (group_order() as int)) as nat
}

/// `a + b` modulo the group order.
pub open spec fn add_mod(a: nat, b: nat) -> nat {
    reduce((a + b) as int)
}

/// `a - b` modulo the group order.
pub open spec fn sub_mod(a: nat, b: nat) -> nat {
    reduce(a - b)
}

/// `a * b` modulo the group order.
pub open spec fn mul_mod(a: nat, b: nat) -> nat {
    reduce((a * b) as int)
}

/// The integer that `bytes` spell in little-endian order.
pub open spec fn le_value(bytes: Seq<u8>) -> nat
    decreases bytes.len(),
{
    if bytes.len() == 0 {
        0
    } else {
        bytes[0] as nat + 256 * le_value(bytes.drop_first())
    }
}

/// The SHA-512 digest of `data`: what `sha2::Sha512` returns for it.
pub uninterp spec fn sha512(data: Seq<u8>) -> Seq<u8>;

/// The scalar that `data` hashes to: its SHA-512 digest, read as a
/// little-endian integer and reduced modulo the group order. Reducing 512 bits
/// leaves no bias worth the name.
pub open spec fn hash_to_scalar(data: Seq<u8>) -> nat {
    reduce(le_value(sha512(data)) as int)
}

/// Whether `bytes` are the 32-byte encoding of an integer below the group
/// order.
pub open spec fn is_canonical_scalar(bytes: Seq<u8>) -> bool {
    bytes.len() == 32 && le_value(bytes) < group_order()
}

/// An integer modulo the group order, held in its canonical little-endian
/// encoding. Its view is the integer.
#[derive(Clone, Copy, Debug, PartialEq, Eq)]
pub struct Scalar {
    bytes: [u8; 32],
}

impl View for Scalar {
    type V = nat;

    open spec fn view(&self) -> nat {
        le_value(self.encoding())
    }
}

/// `Scalar::from_canonical_bytes` of curve25519-dalek, asked only whether it
/// accepts: it does exactly when the 32 bytes spell an integer below the group
/// order.
#[verifier::external_body]
fn dalek_accepts_scalar(bytes: &[u8; 32]) -> (ok: bool)
    ensures
        ok == is_canonical_scalar(bytes@),
{
    bool::from(curve25519_dalek::scalar::Scalar::from_canonical_bytes(*bytes).is_some())
}

/// `Scalar::from(u64)` of curve25519-dalek: the scalar that holds `value`.
#[verifier::external_body]
fn dalek_scalar_from_u64(value: u64) -> (out: [u8; 32])
    ensures
        le_value(out@) == value,
{
    curve25519_dalek::scalar::Scalar::from(value).to_bytes()
}

/// `Scalar::random` of curve25519-dalek with the operating system's generator:
/// some scalar below the group order.
#[verifier::external_body]
fn dalek_scalar_random() -> (out: [u8; 32])
    ensures
        is_canonical_scalar(out@),
{
    curve25519_dalek::scalar::Scalar::random(&mut rand::rngs::OsRng).to_bytes()
}

/// `Scalar::hash_from_bytes::<Sha512>` of curve25519-dalek, with the SHA-512
/// of `sha2`: the 64 bytes of the digest of `data`, read as a little-endian
/// integer and reduced modulo the group order.
#[verifier::external_body]
fn dalek_scalar_from_sha512(data: &[u8]) -> (out: [u8; 32])
    ensures
        le_value(out@) == reduce(le_value(sha512(data@)) as int),
{
    curve25519_dalek::scalar::Scalar::hash_from_bytes::<sha2::Sha512>(data).to_bytes()
}

/// `+` on two scalars of curve25519-dalek: the sum modulo the group order.
#[verifier::external_body]
fn dalek_scalar_add(a: &[u8; 32], b: &[u8; 32]) -> (out: [u8; 32])
    requires
        is_canonical_scalar(a@),
        is_canonical_scalar(b@),
    ensures
        le_value(out@) == add_mod(le_value(a@), le_value(b@)),
{
    let x = curve25519_dalek::scalar::Scalar::from_canonical_bytes(*a).unwrap();
    let y = curve25519_dalek::scalar::Scalar::from_canonical_bytes(*b).unwrap();
    (x + y).to_bytes()
}

/// `-` on two scalars of curve25519-dalek: the difference modulo the group
/// order.
#[verifier::external_body]
fn dalek_scalar_sub(a: &[u8; 32], b: &[u8; 32]) -> (out: [u8; 32])
    requires
        is_canonical_scalar(a@),
        is_canonical_scalar(b@),
    ensures
        le_value(out@) == sub_mod(le_value(a@), le_value(b@)),
{
    let x = curve25519_dalek::scalar::Scalar::from_canonical_bytes(*a).unwrap();
    let y = curve25519_dalek::scalar::Scalar::from_canonical_bytes(*b).unwrap();
    (x - y).to_bytes()
}

/// `*` on two scalars of curve25519-dalek: the product modulo the group order.
#[verifier::external_body]
fn dalek_scalar_mul(a: &[u8; 32], b: &[u8; 32]) -> (out: [u8; 32])
    requires
        is_canonical_scalar(a@),
        is_canonical_scalar(b@),
    ensures
        le_value(out@) == mul_mod(le_value(a@), le_value(b@)),
{
    let x = curve25519_dalek::scalar::Scalar::from_canonical_bytes(*a).unwrap();
    let y = curve25519_dalek::scalar::Scalar::from_canonical_bytes(*b).unwrap();
    (x * y).to_bytes()
}

impl Scalar {
    #[verifier::type_invariant]
    spec fn canonical(self) -> bool {
        le_value(self.bytes@) < group_order()
    }

    /// The 32 bytes that encode the scalar.
    pub closed spec fn encoding(&self) -> Seq<u8> {
        self.bytes@
    }

    /// Reads a scalar from its canonical encoding, and refuses 32 bytes that
    /// spell an integer at or above the group order.
    pub fn from_canonical_bytes(bytes: [u8; 32]) -> (r: Option<Scalar>)
        ensures
            r is Some <==> is_canonical_scalar(bytes@),
            r matches Some(s) ==> s.encoding() == bytes@ && s@ == le_value(bytes@),
    {
        if dalek_accepts_scalar(&bytes) {
            Some(Scalar { bytes })
        } else {
            None
        }
    }

    /// The scalar that holds `value`.
    pub fn from_u64(value: u64) -> (s: Scalar)
        ensures
            s@ == value,
    {
        let bytes = dalek_scalar_from_u64(value);
        Scalar { bytes }
    }

    /// The scalar 0.
    pub fn zero() -> (s: Scalar)
        ensures
            s@ == 0,
    {
        Scalar::from_u64(0)
    }

    /// The scalar 1.
    pub fn one() -> (s: Scalar)
        ensures
            s@ == 1,
    {
        Scalar::from_u64(1)
    }

    /// A fresh scalar from the operating system's random generator.
    pub fn random() -> (s: Scalar)
        ensures
            is_canonical_scalar(s.encoding()),
    {
        let bytes = dalek_scalar_random();
        Scalar { bytes }
    }

    /// Hashes `data` to a scalar with SHA-512.
    pub fn hash_from_bytes(data: &[u8]) -> (s: Scalar)
        ensures
            s@ == hash_to_scalar(data@),
    {
        let bytes = dalek_scalar_from_sha512(data);
        proof {
            lemma_mod_bound(le_value(sha512(data@)) as int, group_order() as int);
        }
        Scalar { bytes }
    }

    /// `self + other` modulo the group order.
    pub fn add(&self, other: &Scalar) -> (sum: Scalar)
        ensures
            sum@ == add_mod(self@, other@),
    {
        proof {
            use_type_invariant(self);
            use_type_invariant(other);
        }
        let bytes = dalek_scalar_add(&self.bytes, &other.bytes);
        Scalar { bytes }
    }

    /// `self - other` modulo the group order.
    pub fn sub(&self, other: &Scalar) -> (difference: Scalar)
        ensures
            difference@ == sub_mod(self@, other@),
    {
        proof {
            use_type_invariant(self);
            use_type_invariant(other);
        }
        let bytes = dalek_scalar_sub(&self.bytes, &other.bytes);
        Scalar { bytes }
    }

    /// `self * other` modulo the group order.
    pub fn mul(&self, other: &Scalar) -> (product: Scalar)
        ensures
            product@ == mul_mod(self@, other@),
    {
        proof {
            use_type_invariant(self);
            use_type_invariant(other);
        }
        let bytes = dalek_scalar_mul(&self.bytes, &other.bytes);
        Scalar { bytes }
    }

    /// The canonical encoding of the scalar.
    pub fn to_bytes(&self) -> (bytes: [u8; 32])
        ensures
            bytes@ == self.encoding(),
            is_canonical_scalar(bytes@),
            le_value(bytes@) == self@,
    {
        proof {
            use_type_invariant(self);
        }
        self.bytes
    }
}

/// Two byte strings of one length that spell the same integer are the same
/// string: changing any bit of an encoding changes the integer.
pub proof fn lemma_le_value_injective(a: Seq<u8>, b: Seq<u8>)
    requires
        a.len() == b.len(),
        le_value(a) == le_value(b),
    ensures
        a == b,
    decreases a.len(),
{
    if a.len() > 0 {
        let x = le_value(a.drop_first()) as int;
        let y = le_value(b.drop_first()) as int;
        let a0 = a[0] as int;
        let b0 = b[0] as int;
        assert(a0 + 256 * x == b0 + 256 * y);
        assert(x == y && a0 == b0) by (nonlinear_arith)
            requires
                a0 + 256 * x == b0 + 256 * y,
                0 <= a0 <= 255,
                0 <= b0 <= 255,
        ;
        lemma_le_value_injective(a.drop_first(), b.drop_first());
        assert(a =~= seq![a[0]] + a.drop_first());
        assert(b =~= seq![b[0]] + b.drop_first());
    } else {
        assert(a =~= b);
    }
}

} // verus!
