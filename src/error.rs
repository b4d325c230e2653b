//! Errors that a pool instruction can end in.

use vstd::prelude::*;

verus! {

/// The reason a pool instruction was refused. Every refusal aborts the whole
/// instruction.
#[derive(Clone, Copy, Debug, PartialEq, Eq, Structural)]
pub enum PoolError {
    /// The pool stake account is not the one derived for the vote account.
    InvalidPoolStakeAccount,
    /// The pool authority is not the one derived for the vote account.
    InvalidPoolAuthority,
    /// The pool mint is not the one derived for the vote account.
    InvalidPoolMint,
    /// The metadata account is not the one derived for the pool mint.
    InvalidMetadataAccount,
    /// The signer offered for a metadata update is not the vote account's
    /// authorized withdrawer.
    InvalidMetadataSigner,
    /// A required signature is missing.
    SignatureMissing,
    /// The vote account's data cannot be read.
    UnparseableVoteAccount,
    /// The vote account uses a legacy layout.
    LegacyVoteAccount,
    /// A stake account is not delegated, or its activity does not match.
    WrongStakeState,
    /// The pool stake account was not funded with rent plus the minimum delegation.
    WrongRentAmount,
    /// The pool stake account was also offered as the user's stake account.
    InvalidPoolAccountUsage,
    /// An amount fell below zero or overflowed.
    ArithmeticOverflow,
    /// A sanity check on the pool's amounts failed.
    UnexpectedMathError,
    /// The deposit would mint no tokens.
    DepositTooSmall,
    /// The withdrawal would release no stake.
    WithdrawalTooSmall,
    /// The withdrawal would release more stake than the pool can give.
    WithdrawalTooLarge,
    /// A program or account owner is not the expected program.
    IncorrectProgramId,
    /// An account's data does not have the expected layout.
    InvalidAccountData,
}

} // verus!
