//! Confidential income attestations.
//!
//! An issuer commits to a holder's income and signs the commitment. The holder
//! later shows a relying party that `income >= used + requested` without
//! revealing any of the three amounts: the party receives three Pedersen
//! commitments and one range proof, recombines the commitments on its own
//! side, checks the proof and counter-signs an approval.
//!
//! The group arithmetic, the hash functions, the range proofs and the approval
//! signatures are computed by `curve25519-dalek`, `sha2`, `bulletproofs`,
//! `merlin`, `ed25519-dalek` and `hex`. Each call into them is a small function
//! whose contract is taken on trust and whose doc comment says what it claims;
//! everything around those calls is verified against these contracts.
//!
//! A group element is modelled by its index: the Ristretto group has prime
//! order `group_order()` and is generated by its basepoint `B`, so every element
//! is `k * B` for exactly one `k < group_order()`. The view of a
//! [`RistrettoPoint`] is that `k`, and the view of a [`Scalar`] is the integer
//! it holds, so the laws of the protocol become statements of arithmetic modulo
//! the group order.

pub mod bank;
pub mod encoding;
pub mod error;
pub mod issuer;
pub mod modular;
pub mod pedersen;
pub mod prover;
pub mod records;
pub mod ristretto;
pub mod scalar;
pub mod wallet;
pub mod zkp;

pub use bank::Bank;
pub use error::Error;
pub use issuer::{verify_signature, Issuer, Signature};
pub use pedersen::PedersenCommitment;
pub use prover::Prover;
pub use ristretto::{CompressedRistretto, RistrettoPoint};
pub use scalar::Scalar;
pub use wallet::{generate_commitment, generate_proof};
pub use zkp::{RangeProof, ZKProofSystem};
