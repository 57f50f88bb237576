use vstd::prelude::*;
use vstd::string::*;
use crate::issuer::Signature;
use crate::ristretto::RistrettoPoint;
use crate::scalar::Scalar;

verus! {

/// The holder of a credential: the commitment to the income, the blinding
/// factor that opens it, and the issuer's attestation. Only the holder has
/// the blinding factor.
pub struct Prover {
    pub name: String,
    pub credential: Option<(RistrettoPoint, Scalar, Signature)>,
}

impl Prover {
    /// A holder who has no credential yet.
    pub fn new(name: &str) -> (prover: Prover)
        ensures
            prover.name@ == name@,
            prover.credential is None,
    {
        Prover { name: String::from_str(name), credential: None }
    }

    /// Stores the credential that the issuer handed over, in place of any
    /// earlier one.
    pub fn receive_credential(
        &mut self,
        commitment: RistrettoPoint,
        randomness: Scalar,
        signature: Signature,
    )
        ensures
            final(self).credential == Some((commitment, randomness, signature)),
            final(self).name == old(self).name,
    {
        self.credential = Some((commitment, randomness, signature));
    }

    /// What the holder shows to a relying party: the commitment and the
    /// attestation, never the blinding factor.
    pub fn present_commitment(&self) -> (shown: Option<(RistrettoPoint, Signature)>)
        ensures
            self.credential is None ==> shown is None,
            self.credential matches Some(held) ==> shown == Some((held.0, held.2)),
    {
        match &self.credential {
            Some((c, _, sig)) => Some((*c, *sig)),
            None => None,
        }
    }
}

} // verus!
