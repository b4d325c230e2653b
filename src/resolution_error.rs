//! Errors of account resolution for extra instruction accounts.

use vstd::prelude::*;

verus! {

/// Errors that may be returned by account resolution.
#[derive(Clone, Copy, Debug, PartialEq, Eq, Structural)]
pub enum AccountResolutionError {
    /// Incorrect account provided
    IncorrectAccount,
    /// Not enough accounts provided
    NotEnoughAccounts,
    /// No value initialized in TLV data
    TlvUninitialized,
    /// Some value initialized in TLV data
    TlvInitialized,
    /// Too many pubkeys provided
    TooManyPubkeys,
    /// Failed to parse `Pubkey` from bytes
    InvalidPubkey,
    /// Attempted to deserialize an `AccountMeta` but the underlying type has
    /// PDA configs rather than a fixed address
    AccountTypeNotAccountMeta,
    /// Provided list of seed configurations too large for a validation account
    SeedConfigsTooLarge,
    /// Not enough bytes available to pack seed configuration
    NotEnoughBytesForSeed,
    /// The provided bytes are not valid for a seed configuration
    InvalidBytesForSeed,
    /// Tried to pack an invalid seed configuration
    InvalidSeedConfig,
    /// Could not find account at specified index
    AccountNotFound,
}

/// The custom program error code of each variant: its position in the list.
pub open spec fn resolution_error_code(e: AccountResolutionError) -> u32 {
    match e {
        AccountResolutionError::IncorrectAccount => 0,
        AccountResolutionError::NotEnoughAccounts => 1,
        AccountResolutionError::TlvUninitialized => 2,
        AccountResolutionError::TlvInitialized => 3,
        AccountResolutionError::TooManyPubkeys => 4,
        AccountResolutionError::InvalidPubkey => 5,
        AccountResolutionError::AccountTypeNotAccountMeta => 6,
        AccountResolutionError::SeedConfigsTooLarge => 7,
        AccountResolutionError::NotEnoughBytesForSeed => 8,
        AccountResolutionError::InvalidBytesForSeed => 9,
        AccountResolutionError::InvalidSeedConfig => 10,
        AccountResolutionError::AccountNotFound => 11,
    }
}

impl AccountResolutionError {
    /// The custom program error code that this error is reported as.
    pub fn code(&self) -> (r: u32)
        ensures
            r == resolution_error_code(*self),
    {
        match self {
            AccountResolutionError::IncorrectAccount => 0,
            AccountResolutionError::NotEnoughAccounts => 1,
            AccountResolutionError::TlvUninitialized => 2,
            AccountResolutionError::TlvInitialized => 3,
            AccountResolutionError::TooManyPubkeys => 4,
            AccountResolutionError::InvalidPubkey => 5,
            AccountResolutionError::AccountTypeNotAccountMeta => 6,
            AccountResolutionError::SeedConfigsTooLarge => 7,
            AccountResolutionError::NotEnoughBytesForSeed => 8,
            AccountResolutionError::InvalidBytesForSeed => 9,
            AccountResolutionError::InvalidSeedConfig => 10,
            AccountResolutionError::AccountNotFound => 11,
        }
    }

    /// The error with the given custom program error code, if any.
    pub fn from_code(code: u32) -> (r: Option<AccountResolutionError>)
        ensures
            match r {
                Some(e) => resolution_error_code(e) == code,
                None => code > 11,
            },
    {
        match code {
            0 => Some(AccountResolutionError::IncorrectAccount),
            1 => Some(AccountResolutionError::NotEnoughAccounts),
            2 => Some(AccountResolutionError::TlvUninitialized),
            3 => Some(AccountResolutionError::TlvInitialized),
            4 => Some(AccountResolutionError::TooManyPubkeys),
            5 => Some(AccountResolutionError::InvalidPubkey),
            6 => Some(AccountResolutionError::AccountTypeNotAccountMeta),
            7 => Some(AccountResolutionError::SeedConfigsTooLarge),
            8 => Some(AccountResolutionError::NotEnoughBytesForSeed),
            9 => Some(AccountResolutionError::InvalidBytesForSeed),
            10 => Some(AccountResolutionError::InvalidSeedConfig),
            11 => Some(AccountResolutionError::AccountNotFound),
            _ => None,
        }
    }
}

} // verus!
