use vstd::prelude::*;
use vstd::string::*;

verus! {

/// What opens the partition key of every record of a user.
pub const USER_PREFIX: &'static str = "USER#";

/// What opens the sort key of a verification record.
pub const TRANSACTION_PREFIX: &'static str = "TX#";

/// The sort key of the record that binds a user's identity.
pub const METADATA_KEY: &'static str = "METADATA";

/// The status of a request that the bank approved.
pub const STATUS_VERIFIED: &'static str = "VERIFIED";

/// The note that every verification record carries: it holds public data
/// only.
pub const NO_SENSITIVE_DATA: &'static str = "NoSensitiveData";

/// The record that binds a user's public key to their identity.
pub struct RegistrationRecord {
    pub pk: String,
    pub sk: String,
    pub created_at: String,
}

/// The record of one verification. It holds the proof and the verdict, never
/// an amount or a blinding factor.
pub struct VerificationRecord {
    pub pk: String,
    pub sk: String,
    pub proof: String,
    pub status: String,
    pub helpers: String,
}

/// The partition key of the records of the user with the given public key.
pub fn user_key(public_key_hex: &str) -> (key: String)
    ensures
        key@ == USER_PREFIX@ + public_key_hex@,
{
    String::from_str(USER_PREFIX).concat(public_key_hex)
}

/// The sort key of the record of the given transaction.
pub fn transaction_key(transaction_id: &str) -> (key: String)
    ensures
        key@ == TRANSACTION_PREFIX@ + transaction_id@,
{
    String::from_str(TRANSACTION_PREFIX).concat(transaction_id)
}

/// The record to store when a user registers at the time `created_at`.
pub fn registration_record(public_key_hex: &str, created_at: &str) -> (record:
    RegistrationRecord)
    ensures
        record.pk@ == USER_PREFIX@ + public_key_hex@,
        record.sk@ == METADATA_KEY@,
        record.created_at@ == created_at@,
{
    RegistrationRecord {
        pk: user_key(public_key_hex),
        sk: String::from_str(METADATA_KEY),
        created_at: String::from_str(created_at),
    }
}

/// The record to store for one verification.
pub fn verification_record(
    public_key_hex: &str,
    transaction_id: &str,
    proof_hex: &str,
    status: &str,
) -> (record: VerificationRecord)
    ensures
        record.pk@ == USER_PREFIX@ + public_key_hex@,
        record.sk@ == TRANSACTION_PREFIX@ + transaction_id@,
        record.proof@ == proof_hex@,
        record.status@ == status@,
        record.helpers@ == NO_SENSITIVE_DATA@,
{
    VerificationRecord {
        pk: user_key(public_key_hex),
        sk: transaction_key(transaction_id),
        proof: String::from_str(proof_hex),
        status: String::from_str(status),
        helpers: String::from_str(NO_SENSITIVE_DATA),
    }
}

} // verus!
