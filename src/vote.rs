//! Reading the parts of a vote account that the pool relies on.

use vstd::prelude::*;
use crate::address::{check_account_owner, Address};
use crate::error::PoolError;

verus! {

/// End of the 4-byte layout version at the start of a vote account.
pub const VOTE_STATE_DISCRIMINATOR_END: usize = 4;

/// Start of the authorized withdrawer's address in a vote account.
pub const VOTE_STATE_AUTHORIZED_WITHDRAWER_START: usize = 36;

/// End of the authorized withdrawer's address in a vote account.
pub const VOTE_STATE_AUTHORIZED_WITHDRAWER_END: usize = 68;

/// The little-endian number held by four bytes.
pub open spec fn le_u32(b: Seq<u8>) -> int {
    b[0] + b[1] * 256 + b[2] * 65536 + b[3] * 16777216
}

/// The outcome of checking a vote account's data: its version must be 1;
/// version 0 is a legacy layout and anything else cannot be read.
pub open spec fn vote_data_check(data: Seq<u8>) -> Result<(), PoolError> {
    if data.len() < 4 {
        Err(PoolError::UnparseableVoteAccount)
    } else if le_u32(data) == 1 {
        Ok(())
    } else if le_u32(data) == 0 {
        Err(PoolError::LegacyVoteAccount)
    } else {
        Err(PoolError::UnparseableVoteAccount)
    }
}

/// Check that a vote account is owned by the vote program and is not a legacy
/// variant.
pub fn check_vote_account(owner: &Address, vote_program_id: &Address, data: &[u8]) -> (r: Result<(), PoolError>)
    ensures
        r == (if owner@ != vote_program_id@ {
            Err(PoolError::IncorrectProgramId)
        } else {
            vote_data_check(data@)
        }),
{
    check_account_owner(owner, vote_program_id)?;
    if data.len() < VOTE_STATE_DISCRIMINATOR_END {
        return Err(PoolError::UnparseableVoteAccount);
    }
    let version: u32 = data[0] as u32 + (data[1] as u32) * 256 + (data[2] as u32) * 65536 + (data[3] as u32) * 16777216;
    assert(version == le_u32(data@));
    if version == 1 {
        Ok(())
    } else if version == 0 {
        Err(PoolError::LegacyVoteAccount)
    } else {
        Err(PoolError::UnparseableVoteAccount)
    }
}

/// The authorized withdrawer recorded in a vote account's data.
pub fn vote_account_withdrawer(data: &[u8]) -> (r: Result<Address, PoolError>)
    ensures
        match r {
            Ok(a) => data@.len() >= 68 && a@ == data@.subrange(36, 68),
            Err(e) => data@.len() < 68 && e == PoolError::UnparseableVoteAccount,
        },
{
    if data.len() < VOTE_STATE_AUTHORIZED_WITHDRAWER_END {
        return Err(PoolError::UnparseableVoteAccount);
    }
    let mut a: Address = [0u8; 32];
    let mut i: usize = 0;
    while i < 32
        invariant
            i <= 32,
            data@.len() >= 68,
            a@.len() == 32,
            forall|j: int| 0 <= j < i ==> a@[j] == data@[36 + j],
        decreases 32 - i,
    {
        a[i] = data[VOTE_STATE_AUTHORIZED_WITHDRAWER_START + i];
        i = i + 1;
    }
    assert(a@ =~= data@.subrange(36, 68));
    Ok(a)
}

} // verus!
