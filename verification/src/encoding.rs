use vstd::prelude::*;
use crate::error::Error;
use crate::ristretto::{is_point_encoding, point_index, CompressedRistretto, RistrettoPoint};
use crate::scalar::{is_canonical_scalar, le_value, Scalar};

verus! {

/// The lower-case hex digit for a number from 0 to 15.
pub open spec fn hex_digit(nibble: int) -> char {
    if nibble < 10 {
        ('0' as int + nibble) as char
    } else {
        ('a' as int + nibble - 10) as char
    }
}

/// Whether `c` is one of `0-9`, `a-f`, `A-F`.
pub open spec fn is_hex_digit(c: char) -> bool {
    ('0' as int <= c as int <= '9' as int) || ('a' as int <= c as int <= 'f' as int) || ('A' as int
        <= c as int <= 'F' as int)
}

/// The number that a hex digit stands for.
pub open spec fn hex_digit_value(c: char) -> int {
    if '0' as int <= c as int <= '9' as int {
        c as int - '0' as int
    } else if 'a' as int <= c as int <= 'f' as int {
        c as int - 'a' as int + 10
    } else {
        c as int - 'A' as int + 10
    }
}

/// Whether `text` is an even number of hex digits.
pub open spec fn is_hex(text: Seq<char>) -> bool {
    text.len() % 2 == 0 && forall|i: int| 0 <= i < text.len() ==> is_hex_digit(#[trigger] text[i])
}

/// `bytes` written as lower-case hex, two digits for each byte.
pub open spec fn hex_encoded(bytes: Seq<u8>) -> Seq<char> {
    Seq::new(
        2 * bytes.len(),
        |i: int|
            if i % 2 == 0 {
                hex_digit(bytes[i / 2] as int / 16)
            } else {
                hex_digit(bytes[i / 2] as int % 16)
            },
    )
}

/// The bytes that the hex digits of `text` spell, two digits for each byte.
pub open spec fn hex_decoded(text: Seq<char>) -> Seq<u8> {
    Seq::new(
        text.len() / 2,
        |i: int| (16 * hex_digit_value(text[2 * i]) + hex_digit_value(text[2 * i + 1])) as u8,
    )
}

#[verifier::external_type_specification]
#[verifier::external_body]
pub struct ExFromHexError(hex::FromHexError);

/// `hex::encode`: two lower-case hex digits for each byte, the high half
/// first.
#[verifier::external_body]
fn hex_encode(bytes: &[u8]) -> (text: String)
    ensures
        text@ == hex_encoded(bytes@),
{
    hex::encode(bytes)
}

/// `hex::decode`: accepts an even number of hex digits of either case and
/// nothing else, and reads each pair as one byte, the high half first.
#[verifier::external_body]
fn hex_decode(text: &str) -> (r: Result<Vec<u8>, hex::FromHexError>)
    ensures
        r is Ok <==> is_hex(text@),
        r matches Ok(bytes) ==> bytes@ == hex_decoded(text@),
{
    hex::decode(text)
}

/// Decoding what was encoded gives the bytes back.
pub proof fn lemma_hex_round_trip(bytes: Seq<u8>)
    ensures
        is_hex(hex_encoded(bytes)),
        hex_decoded(hex_encoded(bytes)) == bytes,
{
    let text = hex_encoded(bytes);
    assert forall|i: int| 0 <= i < text.len() implies is_hex_digit(#[trigger] text[i]) by {
        let b = bytes[i / 2] as int;
        assert(0 <= b / 16 < 16 && 0 <= b % 16 < 16);
    }
    assert forall|i: int| 0 <= i < bytes.len() implies hex_decoded(text)[i] == bytes[i] by {
        let b = bytes[i] as int;
        assert(0 <= b / 16 < 16 && 0 <= b % 16 < 16);
        assert((2 * i) / 2 == i && (2 * i + 1) / 2 == i);
        assert(text[2 * i] == hex_digit(b / 16));
        assert(text[2 * i + 1] == hex_digit(b % 16));
        assert(hex_digit_value(hex_digit(b / 16)) == b / 16);
        assert(hex_digit_value(hex_digit(b % 16)) == b % 16);
        assert(16 * (b / 16) + b % 16 == b);
    }
    assert(hex_decoded(text) =~= bytes);
}

/// Copies a slice of 32 bytes into an array.
pub fn bytes32(bytes: &[u8]) -> (out: [u8; 32])
    requires
        bytes@.len() == 32,
    ensures
        out@ == bytes@,
{
    let mut out = [0u8; 32];
    let mut i: usize = 0;
    while i < 32
        invariant
            i <= 32,
            bytes@.len() == 32,
            forall|k: int| 0 <= k < i ==> out@[k] == bytes@[k],
        decreases 32 - i,
    {
        out[i] = bytes[i];
        i += 1;
    }
    assert(out@ =~= bytes@);
    out
}

/// Appends `bytes` to `buffer`.
pub fn append_bytes(buffer: &mut Vec<u8>, bytes: &[u8])
    ensures
        final(buffer)@ == old(buffer)@ + bytes@,
{
    let mut i: usize = 0;
    while i < bytes.len()
        invariant
            i <= bytes.len(),
            buffer@ == old(buffer)@ + bytes@.take(i as int),
        decreases bytes.len() - i,
    {
        buffer.push(bytes[i]);
        assert(bytes@.take(i + 1) =~= bytes@.take(i as int).push(bytes@[i as int]));
        i += 1;
    }
    assert(bytes@.take(bytes.len() as int) =~= bytes@);
}

/// Reads bytes from hex text, and refuses text that is not an even number of
/// hex digits.
pub fn decode_hex(text: &str) -> (r: Result<Vec<u8>, Error>)
    ensures
        r is Ok <==> is_hex(text@),
        r matches Ok(bytes) ==> bytes@ == hex_decoded(text@),
        r matches Err(e) ==> e == Error::InvalidEncoding,
{
    match hex_decode(text) {
        Ok(bytes) => Ok(bytes),
        Err(_) => Err(Error::InvalidEncoding),
    }
}

/// Writes bytes as lower-case hex text.
pub fn encode_hex(bytes: &[u8]) -> (text: String)
    ensures
        text@ == hex_encoded(bytes@),
        is_hex(text@),
        hex_decoded(text@) == bytes@,
{
    proof {
        lemma_hex_round_trip(bytes@);
    }
    hex_encode(bytes)
}

/// Reads a scalar from bytes off the wire, and refuses anything but the 32
/// bytes of a canonical encoding.
pub fn scalar_from_bytes(bytes: &[u8]) -> (r: Result<Scalar, Error>)
    ensures
        r is Ok <==> is_canonical_scalar(bytes@),
        r matches Ok(s) ==> s.encoding() == bytes@,
        r matches Err(e) ==> e == Error::InvalidEncoding,
{
    if bytes.len() != 32 {
        return Err(Error::InvalidEncoding);
    }
    match Scalar::from_canonical_bytes(bytes32(bytes)) {
        Some(s) => Ok(s),
        None => Err(Error::InvalidEncoding),
    }
}

/// Reads a group element from bytes off the wire, and refuses anything but
/// the 32 bytes of the canonical encoding of one.
pub fn point_from_bytes(bytes: &[u8]) -> (r: Result<RistrettoPoint, Error>)
    ensures
        r is Ok <==> bytes@.len() == 32 && is_point_encoding(bytes@),
        r matches Ok(p) ==> p.encoding() == bytes@ && p@ == point_index(bytes@),
        r matches Err(e) ==> e == Error::InvalidEncoding,
{
    let compressed = CompressedRistretto::from_slice(bytes)?;
    match compressed.decompress() {
        Some(p) => Ok(p),
        None => Err(Error::InvalidEncoding),
    }
}

/// Whether `text` is the hex form of exactly 32 bytes.
pub open spec fn is_hex32(text: Seq<char>) -> bool {
    is_hex(text) && text.len() == 64
}

/// Reads the 32 bytes of a compressed point from hex text. The bytes are not
/// decompressed here: any 32 bytes pass.
pub fn decode_point(text: &str) -> (r: Result<CompressedRistretto, Error>)
    ensures
        r is Ok <==> is_hex32(text@),
        r matches Ok(c) ==> c.0@ == hex_decoded(text@),
        r matches Err(e) ==> e == Error::InvalidEncoding,
{
    let bytes = decode_hex(text)?;
    if bytes.len() != 32 {
        return Err(Error::InvalidEncoding);
    }
    Ok(CompressedRistretto(bytes32(bytes.as_slice())))
}

/// Reads a scalar from the hex form of its canonical encoding, and refuses
/// text that is not hex, not 32 bytes long, or spells an integer at or above
/// the group order.
pub fn decode_scalar(text: &str) -> (r: Result<Scalar, Error>)
    ensures
        r is Ok <==> is_hex32(text@) && is_canonical_scalar(hex_decoded(text@)),
        r matches Ok(s) ==> s.encoding() == hex_decoded(text@) && s@ == le_value(
            hex_decoded(text@),
        ),
        r matches Err(e) ==> e == Error::InvalidEncoding,
{
    let bytes = decode_hex(text)?;
    if bytes.len() != 32 {
        return Err(Error::InvalidEncoding);
    }
    match Scalar::from_canonical_bytes(bytes32(bytes.as_slice())) {
        Some(s) => Ok(s),
        None => Err(Error::InvalidEncoding),
    }
}

} // verus!
