use vstd::prelude::*;
use vstd::string::*;

verus! {

/// Why an operation of this library was refused.
///
/// Nothing here is retried by the library: each value is the final outcome for
/// the input that produced it.
#[derive(Clone, Copy, Debug, PartialEq, Eq, Structural)]
pub enum Error {
    /// A hex string, a byte length, a scalar or a point is not a valid
    /// encoding.
    InvalidEncoding,
    /// The bytes handed over as a range proof do not have the layout of one.
    MalformedProof,
    /// The amount already used plus the amount requested exceeds the income.
    InsufficientFunds,
    /// The amount left over does not fit the bit width of the range proof.
    ValueOutOfRange,
    /// The range-proof prover gave up.
    ProvingFailed,
    /// The range proof has the right layout but does not verify.
    ProofInvalid,
    /// An attestation does not verify under the issuer's public key.
    SignatureInvalid,
}

impl Error {
    /// The text of the reason category, as shown to a caller.
    pub open spec fn message_spec(self) -> Seq<char> {
        match self {
            Error::InvalidEncoding => "Invalid Encoding"@,
            Error::MalformedProof => "Invalid Proof Format"@,
            Error::InsufficientFunds => "Insufficient Funds"@,
            Error::ValueOutOfRange => "Value Out Of Range"@,
            Error::ProvingFailed => "Proof Generation Failed"@,
            Error::ProofInvalid => "Verification Failed"@,
            Error::SignatureInvalid => "Invalid Signature"@,
        }
    }

    /// Renders the reason category as text.
    pub fn message(&self) -> (text: String)
        ensures
            text@ == self.message_spec(),
    {
        match self {
            Error::InvalidEncoding => String::from_str("Invalid Encoding"),
            Error::MalformedProof => String::from_str("Invalid Proof Format"),
            Error::InsufficientFunds => String::from_str("Insufficient Funds"),
            Error::ValueOutOfRange => String::from_str("Value Out Of Range"),
            Error::ProvingFailed => String::from_str("Proof Generation Failed"),
            Error::ProofInvalid => String::from_str("Verification Failed"),
            Error::SignatureInvalid => String::from_str("Invalid Signature"),
        }
    }
}

} // verus!
