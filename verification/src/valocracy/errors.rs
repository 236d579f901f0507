//! Errors of the reputation ledger.

use vstd::prelude::*;

verus! {

#[derive(Copy, Clone, Debug, PartialEq, Eq, Structural, Hash)]
pub enum ValocracyError {
    /// The ledger has already been initialized.
    AlreadyInitialized,
    /// The ledger has not been initialized.
    NotInitialized,
    /// The required principal did not authorize the call.
    NotAuthorized,
    /// The badge type does not exist.
    NonExistentValor,
    /// The badge does not exist.
    NonExistentToken,
    /// The account has no record.
    NonExistentAccount,
    /// Badges are bound to their owner and cannot be transferred.
    TokenSoulbound,
    /// The account has already registered itself.
    AlreadyRegistered,
    /// The voucher's signature does not verify.
    InvalidSignature,
    /// The voucher's nonce has been used before.
    NonceUsed,
    /// The voucher has expired.
    SignatureExpired,
    /// The badge type id lies in no category.
    InvalidValorId,
    /// The minter may not issue badges of this category.
    MintNotAuthorized,
    /// Badges of this category cannot be issued by a mint call.
    BadgeNotMintable,
    /// A guarded operation was entered again while it ran.
    ReentrancyDetected,
}

impl ValocracyError {
    /// The numeric code under which the error is reported to callers.
    pub open spec fn spec_code(self) -> u32 {
        match self {
            ValocracyError::AlreadyInitialized => 1,
            ValocracyError::NotInitialized => 2,
            ValocracyError::NotAuthorized => 3,
            ValocracyError::NonExistentValor => 4,
            ValocracyError::NonExistentToken => 5,
            ValocracyError::NonExistentAccount => 6,
            ValocracyError::TokenSoulbound => 7,
            ValocracyError::AlreadyRegistered => 8,
            ValocracyError::InvalidSignature => 9,
            ValocracyError::NonceUsed => 10,
            ValocracyError::SignatureExpired => 11,
            ValocracyError::InvalidValorId => 12,
            ValocracyError::MintNotAuthorized => 13,
            ValocracyError::BadgeNotMintable => 14,
            ValocracyError::ReentrancyDetected => 15,
        }
    }

    /// The numeric code under which the error is reported to callers.
    pub fn code(&self) -> (r: u32)
        ensures
            r == self.spec_code(),
    {
        match self {
            ValocracyError::AlreadyInitialized => 1,
            ValocracyError::NotInitialized => 2,
            ValocracyError::NotAuthorized => 3,
            ValocracyError::NonExistentValor => 4,
            ValocracyError::NonExistentToken => 5,
            ValocracyError::NonExistentAccount => 6,
            ValocracyError::TokenSoulbound => 7,
            ValocracyError::AlreadyRegistered => 8,
            ValocracyError::InvalidSignature => 9,
            ValocracyError::NonceUsed => 10,
            ValocracyError::SignatureExpired => 11,
            ValocracyError::InvalidValorId => 12,
            ValocracyError::MintNotAuthorized => 13,
            ValocracyError::BadgeNotMintable => 14,
            ValocracyError::ReentrancyDetected => 15,
        }
    }
}

} // verus!
