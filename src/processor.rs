//! The decisions of each pool instruction.
//!
//! An instruction checks the accounts it was given, reads the stake and mint
//! accounts, and then calls the stake and token programs under the pool
//! authority's signature. The functions here take what was read and decide:
//! they return the amounts and bumps for those calls, or the error that aborts
//! the instruction before any call is made.

use vstd::prelude::*;
use crate::address::{
    check_account_owner, check_metadata_account_address, check_pool_address, check_program,
    find_pool_address_and_bump, metadata_check, pool_address, pool_check, program_check,
    Address, PoolRole,
};
use crate::error::PoolError;
use crate::math::{calculate_deposit_amount, calculate_withdraw_amount, deposit_tokens, withdraw_stake};
use crate::mint::{mint_supply, mint_supply_of};
use crate::stake::{
    get_stake_state, is_stake_active_without_history, minimum_delegation, minimum_delegation_floor,
    stake_active, stake_state_result,
};
use crate::vote::{check_vote_account, vote_account_withdrawer, vote_data_check};

verus! {

/// The addresses of the programs that a pool calls or checks against.
#[derive(Clone, Copy, Debug)]
pub struct ProgramIds {
    pub system_program: Address,
    pub token_program: Address,
    pub stake_program: Address,
    pub vote_program: Address,
    pub metadata_program: Address,
}

/// Program state handler.
pub struct Processor {}

/// The pool accounts and programs that deposits and withdrawals name.
#[derive(Clone, Copy, Debug)]
pub struct PoolAccounts {
    pub pool_stake: Address,
    pub pool_authority: Address,
    pub pool_mint: Address,
    pub token_program: Address,
    pub stake_program: Address,
}

/// The accounts that pool initialization names.
#[derive(Clone, Copy, Debug)]
pub struct InitializeAccounts {
    pub vote_account: Address,
    pub vote_account_owner: Address,
    pub pool_stake: Address,
    pub pool_authority: Address,
    pub pool_mint: Address,
    pub system_program: Address,
    pub token_program: Address,
    pub stake_program: Address,
}

/// The bumps of the three pool accounts, for signing as each of them.
#[derive(Clone, Copy, Debug, PartialEq, Eq, Structural)]
pub struct PoolBumps {
    pub stake: u8,
    pub authority: u8,
    pub mint: u8,
}

/// What a deposit learned before the merge: the authority's bump, the pool's
/// effective stake, and the minimum delegation.
#[derive(Clone, Copy, Debug, PartialEq, Eq, Structural)]
pub struct DepositStart {
    pub bump: u8,
    pub pre_pool_stake: u64,
    pub minimum_delegation: u64,
}

/// What a deposit does after the merge: tokens to mint to the user, and
/// lamports beyond stake and reserve to return to the user.
#[derive(Clone, Copy, Debug, PartialEq, Eq, Structural)]
pub struct DepositFinish {
    pub new_pool_tokens: u64,
    pub excess_lamports: u64,
}

/// What a withdrawal does: under the authority's bump, burn the user's tokens
/// and split `withdraw_stake` lamports of stake off to the user.
#[derive(Clone, Copy, Debug, PartialEq, Eq, Structural)]
pub struct WithdrawPlan {
    pub bump: u8,
    pub withdraw_stake: u64,
}

/// The accounts that the creation of the pool mint's metadata names.
#[derive(Clone, Copy, Debug)]
pub struct CreateMetadataAccounts {
    pub pool_authority: Address,
    pub pool_mint: Address,
    pub payer: Address,
    pub payer_owner: Address,
    pub metadata: Address,
    pub metadata_program: Address,
    pub system_program: Address,
}

/// The accounts that an update of the pool mint's metadata names.
#[derive(Clone, Copy, Debug)]
pub struct UpdateMetadataAccounts {
    pub vote_account: Address,
    pub vote_account_owner: Address,
    pub pool_authority: Address,
    pub authorized_withdrawer: Address,
    pub metadata: Address,
    pub metadata_program: Address,
}

/// The pool's stake above the floor, or zero.
pub open spec fn effective_stake(stake: u64, floor: u64) -> u64 {
    if stake >= floor {
        (stake - floor) as u64
    } else {
        0
    }
}

/// The outcome of checking the pool accounts of a deposit or withdrawal: the
/// authority's bump, or the first error.
pub open spec fn pool_accounts_check(program: Seq<u8>, ids: ProgramIds, vote: Seq<u8>, a: PoolAccounts) -> Result<u8, PoolError> {
    match pool_check(program, vote, PoolRole::Stake, a.pool_stake@) {
        Err(e) => Err(e),
        Ok(_) => match pool_check(program, vote, PoolRole::Authority, a.pool_authority@) {
            Err(e) => Err(e),
            Ok(bump) => match pool_check(program, vote, PoolRole::Mint, a.pool_mint@) {
                Err(e) => Err(e),
                Ok(_) => match program_check(a.token_program@, ids.token_program@) {
                    Err(e) => Err(e),
                    Ok(_) => match program_check(a.stake_program@, ids.stake_program@) {
                        Err(e) => Err(e),
                        Ok(_) => Ok(bump),
                    },
                },
            },
        },
    }
}

/// Rent plus the initial delegation, saturating at `u64::MAX`.
pub open spec fn rent_plus_initial(rent: u64, floor: u64) -> u64 {
    if rent + floor > u64::MAX {
        u64::MAX
    } else {
        (rent + floor) as u64
    }
}

/// The outcome of initializing a pool: the three bumps, or the first error.
/// The pool stake account must hold its rent plus the minimum delegation.
pub open spec fn initialize_outcome(
    program: Seq<u8>,
    ids: ProgramIds,
    a: InitializeAccounts,
    vote_data: Seq<u8>,
    pool_stake_lamports: u64,
    stake_rent: u64,
    network_minimum: u64,
) -> Result<PoolBumps, PoolError> {
    let vote = a.vote_account@;
    if a.vote_account_owner@ != ids.vote_program@ {
        Err(PoolError::IncorrectProgramId)
    } else {
        match vote_data_check(vote_data) {
            Err(e) => Err(e),
            Ok(_) => match pool_check(program, vote, PoolRole::Stake, a.pool_stake@) {
                Err(e) => Err(e),
                Ok(s) => match pool_check(program, vote, PoolRole::Authority, a.pool_authority@) {
                    Err(e) => Err(e),
                    Ok(au) => match pool_check(program, vote, PoolRole::Mint, a.pool_mint@) {
                        Err(e) => Err(e),
                        Ok(m) => match program_check(a.system_program@, ids.system_program@) {
                            Err(e) => Err(e),
                            Ok(_) => match program_check(a.token_program@, ids.token_program@) {
                                Err(e) => Err(e),
                                Ok(_) => match program_check(a.stake_program@, ids.stake_program@) {
                                    Err(e) => Err(e),
                                    Ok(_) => if pool_stake_lamports < rent_plus_initial(
                                        stake_rent,
                                        minimum_delegation_floor(network_minimum),
                                    ) {
                                        Err(PoolError::WrongRentAmount)
                                    } else {
                                        Ok(PoolBumps { stake: s, authority: au, mint: m })
                                    },
                                },
                            },
                        },
                    },
                },
            },
        }
    }
}

/// The outcome of a deposit up to the merge: the self-deposit guard, then
/// both stake accounts must be delegated and alike in activity.
pub open spec fn deposit_start_outcome(
    program: Seq<u8>,
    ids: ProgramIds,
    vote: Seq<u8>,
    a: PoolAccounts,
    user_stake: Seq<u8>,
    pool_stake_data: Seq<u8>,
    user_stake_data: Seq<u8>,
    current_epoch: u64,
    network_minimum: u64,
) -> Result<DepositStart, PoolError> {
    match pool_accounts_check(program, ids, vote, a) {
        Err(e) => Err(e),
        Ok(bump) => if a.pool_stake@ == user_stake {
            Err(PoolError::InvalidPoolAccountUsage)
        } else {
            match stake_state_result(pool_stake_data) {
                Err(e) => Err(e),
                Ok(pool) => match stake_state_result(user_stake_data) {
                    Err(e) => Err(e),
                    Ok(user) => if stake_active(pool, current_epoch) != stake_active(user, current_epoch) {
                        Err(PoolError::WrongStakeState)
                    } else {
                        let floor = minimum_delegation_floor(network_minimum);
                        Ok(DepositStart {
                            bump,
                            pre_pool_stake: effective_stake(pool.1, floor),
                            minimum_delegation: floor,
                        })
                    },
                },
            }
        },
    }
}

/// The outcome of a deposit after the merge: the stake it added, priced at
/// the rate before the merge, and the lamports beyond stake and reserve.
pub open spec fn deposit_finish_outcome(
    start: DepositStart,
    pool_stake_data: Seq<u8>,
    pool_stake_lamports: u64,
    user_stake_lamports: u64,
    mint_data: Seq<u8>,
) -> Result<DepositFinish, PoolError> {
    match stake_state_result(pool_stake_data) {
        Err(e) => Err(e),
        Ok(pool) => {
            let post = effective_stake(pool.1, start.minimum_delegation);
            if post < start.pre_pool_stake {
                Err(PoolError::ArithmeticOverflow)
            } else if pool_stake_lamports < pool.1 + pool.0 {
                Err(PoolError::ArithmeticOverflow)
            } else if post < start.minimum_delegation || user_stake_lamports != 0 {
                Err(PoolError::UnexpectedMathError)
            } else {
                match mint_supply_of(mint_data) {
                    None => Err(PoolError::InvalidAccountData),
                    Some(supply) => {
                        let tokens = deposit_tokens(supply, start.pre_pool_stake as int, post - start.pre_pool_stake);
                        if tokens > u64::MAX {
                            Err(PoolError::UnexpectedMathError)
                        } else if tokens == 0 {
                            Err(PoolError::DepositTooSmall)
                        } else {
                            Ok(DepositFinish {
                                new_pool_tokens: tokens as u64,
                                excess_lamports: (pool_stake_lamports - pool.1 - pool.0) as u64,
                            })
                        }
                    },
                }
            }
        },
    }
}

/// The outcome of a withdrawal: the self-withdrawal guard, then the stake
/// that the tokens are worth, which must be neither zero, more than the
/// pool's effective stake, nor the pool's whole balance.
pub open spec fn withdraw_outcome(
    program: Seq<u8>,
    ids: ProgramIds,
    vote: Seq<u8>,
    a: PoolAccounts,
    user_stake: Seq<u8>,
    pool_stake_data: Seq<u8>,
    pool_stake_lamports: u64,
    mint_data: Seq<u8>,
    token_amount: u64,
    network_minimum: u64,
) -> Result<WithdrawPlan, PoolError> {
    match pool_accounts_check(program, ids, vote, a) {
        Err(e) => Err(e),
        Ok(bump) => if a.pool_stake@ == user_stake {
            Err(PoolError::InvalidPoolAccountUsage)
        } else {
            match stake_state_result(pool_stake_data) {
                Err(e) => Err(e),
                Ok(pool) => match mint_supply_of(mint_data) {
                    None => Err(PoolError::InvalidAccountData),
                    Some(supply) => {
                        let pre = effective_stake(pool.1, minimum_delegation_floor(network_minimum));
                        let w = withdraw_stake(supply, pre as int, token_amount as int);
                        if w > u64::MAX {
                            Err(PoolError::UnexpectedMathError)
                        } else if w == 0 {
                            Err(PoolError::WithdrawalTooSmall)
                        } else if w > pre || w == pool_stake_lamports {
                            Err(PoolError::WithdrawalTooLarge)
                        } else {
                            Ok(WithdrawPlan { bump, withdraw_stake: w as u64 })
                        }
                    },
                },
            }
        },
    }
}

/// The outcome of creating the pool mint's metadata: the authority's bump, or
/// the first error. The payer must sign and the mint must exist.
pub open spec fn create_metadata_outcome(
    program: Seq<u8>,
    ids: ProgramIds,
    vote: Seq<u8>,
    a: CreateMetadataAccounts,
    payer_signed: bool,
    mint_data: Seq<u8>,
) -> Result<u8, PoolError> {
    match pool_check(program, vote, PoolRole::Authority, a.pool_authority@) {
        Err(e) => Err(e),
        Ok(bump) => match pool_check(program, vote, PoolRole::Mint, a.pool_mint@) {
            Err(e) => Err(e),
            Ok(_) => match program_check(a.system_program@, ids.system_program@) {
                Err(e) => Err(e),
                Ok(_) => match program_check(a.payer_owner@, ids.system_program@) {
                    Err(e) => Err(e),
                    Ok(_) => match program_check(a.metadata_program@, ids.metadata_program@) {
                        Err(e) => Err(e),
                        Ok(_) => match metadata_check(ids.metadata_program@, a.metadata@, a.pool_mint@) {
                            Err(e) => Err(e),
                            Ok(_) => if !payer_signed {
                                Err(PoolError::SignatureMissing)
                            } else if mint_supply_of(mint_data) is None {
                                Err(PoolError::InvalidAccountData)
                            } else {
                                Ok(bump)
                            },
                        },
                    },
                },
            },
        },
    }
}

/// The outcome of updating the pool mint's metadata: the authority's bump, or
/// the first error. The vote account's authorized withdrawer must sign.
pub open spec fn update_metadata_outcome(
    program: Seq<u8>,
    ids: ProgramIds,
    a: UpdateMetadataAccounts,
    withdrawer_signed: bool,
    vote_data: Seq<u8>,
) -> Result<u8, PoolError> {
    let vote = a.vote_account@;
    if a.vote_account_owner@ != ids.vote_program@ {
        Err(PoolError::IncorrectProgramId)
    } else {
        match vote_data_check(vote_data) {
            Err(e) => Err(e),
            Ok(_) => match pool_check(program, vote, PoolRole::Authority, a.pool_authority@) {
                Err(e) => Err(e),
                Ok(bump) => match pool_address(program, vote, PoolRole::Mint) {
                    None => Err(PoolError::InvalidPoolMint),
                    Some((mint, _)) => match program_check(a.metadata_program@, ids.metadata_program@) {
                        Err(e) => Err(e),
                        Ok(_) => match metadata_check(ids.metadata_program@, a.metadata@, mint) {
                            Err(e) => Err(e),
                            Ok(_) => if vote_data.len() < 68 {
                                Err(PoolError::UnparseableVoteAccount)
                            } else if a.authorized_withdrawer@ != vote_data.subrange(36, 68) {
                                Err(PoolError::InvalidMetadataSigner)
                            } else if !withdrawer_signed {
                                Err(PoolError::SignatureMissing)
                            } else {
                                Ok(bump)
                            },
                        },
                    },
                },
            },
        }
    }
}

/// The name "SPL Single Pool " followed by the first 15 characters of the
/// vote account's printed address.
pub open spec fn pool_token_name_of(vote_text: Seq<u8>) -> Seq<u8> {
    seq![83u8, 80u8, 76u8, 32u8, 83u8, 105u8, 110u8, 103u8, 108u8, 101u8, 32u8, 80u8, 111u8, 111u8, 108u8, 32u8]
        + vote_text.subrange(0, 15)
}

/// The symbol "st" followed by the first 7 characters of the vote account's
/// printed address.
pub open spec fn pool_token_symbol_of(vote_text: Seq<u8>) -> Seq<u8> {
    seq![115u8, 116u8] + vote_text.subrange(0, 7)
}

fn append_prefix(r: &mut Vec<u8>, text: &Vec<u8>, n: usize)
    requires
        n <= text@.len(),
    ensures
        final(r)@ == old(r)@ + text@.subrange(0, n as int),
{
    let mut i: usize = 0;
    while i < n
        invariant
            i <= n,
            n <= text@.len(),
            r@ == old(r)@ + text@.subrange(0, i as int),
        decreases n - i,
    {
        r.push(text[i]);
        i = i + 1;
        assert(r@ =~= old(r)@ + text@.subrange(0, i as int));
    }
}

fn saturating_floor(stake: u64, floor: u64) -> (r: u64)
    ensures
        r == effective_stake(stake, floor),
{
    if stake >= floor {
        stake - floor
    } else {
        0
    }
}

impl Processor {
    /// Check the pool accounts and programs of a deposit or withdrawal, and
    /// return the authority's bump.
    pub fn check_pool_accounts(
        program_id: &Address,
        ids: &ProgramIds,
        vote_account_address: &Address,
        accounts: &PoolAccounts,
    ) -> (r: Result<u8, PoolError>)
        ensures
            r == pool_accounts_check(program_id@, *ids, vote_account_address@, *accounts),
    {
        check_pool_address(program_id, vote_account_address, PoolRole::Stake, &accounts.pool_stake)?;
        let bump = check_pool_address(
            program_id,
            vote_account_address,
            PoolRole::Authority,
            &accounts.pool_authority,
        )?;
        check_pool_address(program_id, vote_account_address, PoolRole::Mint, &accounts.pool_mint)?;
        check_program(&accounts.token_program, &ids.token_program)?;
        check_program(&accounts.stake_program, &ids.stake_program)?;
        Ok(bump)
    }

    /// Decide a pool initialization: check the vote account, the three pool
    /// addresses and the programs, and that the pool stake account holds its
    /// rent plus the minimum delegation. The caller then creates the mint and
    /// the stake account and delegates it, signing with the returned bumps.
    pub fn initialize_pool(
        program_id: &Address,
        ids: &ProgramIds,
        accounts: &InitializeAccounts,
        vote_account_data: &[u8],
        pool_stake_lamports: u64,
        stake_rent: u64,
        network_minimum: u64,
    ) -> (r: Result<PoolBumps, PoolError>)
        ensures
            r == initialize_outcome(
                program_id@,
                *ids,
                *accounts,
                vote_account_data@,
                pool_stake_lamports,
                stake_rent,
                network_minimum,
            ),
    {
        let vote = &accounts.vote_account;
        check_vote_account(&accounts.vote_account_owner, &ids.vote_program, vote_account_data)?;
        let stake = check_pool_address(program_id, vote, PoolRole::Stake, &accounts.pool_stake)?;
        let authority = check_pool_address(program_id, vote, PoolRole::Authority, &accounts.pool_authority)?;
        let mint = check_pool_address(program_id, vote, PoolRole::Mint, &accounts.pool_mint)?;
        check_program(&accounts.system_program, &ids.system_program)?;
        check_program(&accounts.token_program, &ids.token_program)?;
        check_program(&accounts.stake_program, &ids.stake_program)?;
        let floor = minimum_delegation(network_minimum);
        let required: u64 = if stake_rent > u64::MAX - floor {
            u64::MAX
        } else {
            stake_rent + floor
        };
        if pool_stake_lamports < required {
            return Err(PoolError::WrongRentAmount);
        }
        Ok(PoolBumps { stake, authority, mint })
    }

    /// Decide the first half of a deposit, before the user's stake is merged
    /// into the pool's.
    pub fn begin_deposit_stake(
        program_id: &Address,
        ids: &ProgramIds,
        vote_account_address: &Address,
        accounts: &PoolAccounts,
        user_stake: &Address,
        pool_stake_data: &[u8],
        user_stake_data: &[u8],
        current_epoch: u64,
        network_minimum: u64,
    ) -> (r: Result<DepositStart, PoolError>)
        ensures
            r == deposit_start_outcome(
                program_id@,
                *ids,
                vote_account_address@,
                *accounts,
                user_stake@,
                pool_stake_data@,
                user_stake_data@,
                current_epoch,
                network_minimum,
            ),
    {
        let bump = Self::check_pool_accounts(program_id, ids, vote_account_address, accounts)?;
        if crate::address::same_address(&accounts.pool_stake, user_stake) {
            return Err(PoolError::InvalidPoolAccountUsage);
        }
        let floor = minimum_delegation(network_minimum);
        let pool = get_stake_state(pool_stake_data)?;
        let pre_pool_stake = saturating_floor(pool.stake, floor);
        let user = get_stake_state(user_stake_data)?;
        if is_stake_active_without_history(&pool, current_epoch) != is_stake_active_without_history(
            &user,
            current_epoch,
        ) {
            return Err(PoolError::WrongStakeState);
        }
        Ok(DepositStart { bump, pre_pool_stake, minimum_delegation: floor })
    }

    /// Decide the second half of a deposit, after the merge: the tokens to
    /// mint and the lamports to return.
    pub fn finish_deposit_stake(
        start: &DepositStart,
        pool_stake_data: &[u8],
        pool_stake_lamports: u64,
        user_stake_lamports: u64,
        mint_data: &[u8],
    ) -> (r: Result<DepositFinish, PoolError>)
        ensures
            r == deposit_finish_outcome(
                *start,
                pool_stake_data@,
                pool_stake_lamports,
                user_stake_lamports,
                mint_data@,
            ),
    {
        let pool = get_stake_state(pool_stake_data)?;
        let post_pool_stake = saturating_floor(pool.stake, start.minimum_delegation);
        if post_pool_stake < start.pre_pool_stake {
            return Err(PoolError::ArithmeticOverflow);
        }
        let stake_added = post_pool_stake - start.pre_pool_stake;
        if pool_stake_lamports < pool.stake || pool_stake_lamports - pool.stake < pool.rent_exempt_reserve {
            return Err(PoolError::ArithmeticOverflow);
        }
        let excess_lamports = pool_stake_lamports - pool.stake - pool.rent_exempt_reserve;
        if post_pool_stake < start.minimum_delegation {
            return Err(PoolError::UnexpectedMathError);
        }
        if user_stake_lamports != 0 {
            return Err(PoolError::UnexpectedMathError);
        }
        let token_supply = mint_supply(mint_data)?;
        let new_pool_tokens = match calculate_deposit_amount(token_supply, start.pre_pool_stake, stake_added) {
            Some(t) => t,
            None => {
                return Err(PoolError::UnexpectedMathError);
            },
        };
        if new_pool_tokens == 0 {
            return Err(PoolError::DepositTooSmall);
        }
        Ok(DepositFinish { new_pool_tokens, excess_lamports })
    }

    /// The name of the pool token, from the vote account's printed address.
    pub fn pool_token_name(vote_text: &Vec<u8>) -> (r: Vec<u8>)
        requires
            vote_text@.len() >= 15,
        ensures
            r@ == pool_token_name_of(vote_text@),
    {
        let mut r: Vec<u8> = vec![83u8, 80u8, 76u8, 32u8, 83u8, 105u8, 110u8, 103u8, 108u8, 101u8, 32u8, 80u8, 111u8, 111u8, 108u8, 32u8];
        append_prefix(&mut r, vote_text, 15);
        assert(r@ =~= pool_token_name_of(vote_text@));
        r
    }

    /// The symbol of the pool token, from the vote account's printed address.
    pub fn pool_token_symbol(vote_text: &Vec<u8>) -> (r: Vec<u8>)
        requires
            vote_text@.len() >= 7,
        ensures
            r@ == pool_token_symbol_of(vote_text@),
    {
        let mut r: Vec<u8> = vec![115u8, 116u8];
        append_prefix(&mut r, vote_text, 7);
        assert(r@ =~= pool_token_symbol_of(vote_text@));
        r
    }

    /// Decide the creation of the pool mint's metadata.
    pub fn create_pool_token_metadata(
        program_id: &Address,
        ids: &ProgramIds,
        vote_account_address: &Address,
        accounts: &CreateMetadataAccounts,
        payer_signed: bool,
        mint_data: &[u8],
    ) -> (r: Result<u8, PoolError>)
        ensures
            r == create_metadata_outcome(
                program_id@,
                *ids,
                vote_account_address@,
                *accounts,
                payer_signed,
                mint_data@,
            ),
    {
        let vote = vote_account_address;
        let bump = check_pool_address(program_id, vote, PoolRole::Authority, &accounts.pool_authority)?;
        check_pool_address(program_id, vote, PoolRole::Mint, &accounts.pool_mint)?;
        check_program(&accounts.system_program, &ids.system_program)?;
        check_account_owner(&accounts.payer_owner, &ids.system_program)?;
        check_program(&accounts.metadata_program, &ids.metadata_program)?;
        check_metadata_account_address(&ids.metadata_program, &accounts.metadata, &accounts.pool_mint)?;
        if !payer_signed {
            return Err(PoolError::SignatureMissing);
        }
        mint_supply(mint_data)?;
        Ok(bump)
    }

    /// Decide an update of the pool mint's metadata.
    pub fn update_pool_token_metadata(
        program_id: &Address,
        ids: &ProgramIds,
        accounts: &UpdateMetadataAccounts,
        withdrawer_signed: bool,
        vote_account_data: &[u8],
    ) -> (r: Result<u8, PoolError>)
        ensures
            r == update_metadata_outcome(
                program_id@,
                *ids,
                *accounts,
                withdrawer_signed,
                vote_account_data@,
            ),
    {
        let vote = &accounts.vote_account;
        check_vote_account(&accounts.vote_account_owner, &ids.vote_program, vote_account_data)?;
        let bump = check_pool_address(program_id, vote, PoolRole::Authority, &accounts.pool_authority)?;
        let pool_mint = match find_pool_address_and_bump(program_id, vote, PoolRole::Mint) {
            Some((a, _)) => a,
            None => {
                return Err(PoolError::InvalidPoolMint);
            },
        };
        check_program(&accounts.metadata_program, &ids.metadata_program)?;
        check_metadata_account_address(&ids.metadata_program, &accounts.metadata, &pool_mint)?;
        let withdrawer = vote_account_withdrawer(vote_account_data)?;
        if !crate::address::same_address(&accounts.authorized_withdrawer, &withdrawer) {
            return Err(PoolError::InvalidMetadataSigner);
        }
        if !withdrawer_signed {
            return Err(PoolError::SignatureMissing);
        }
        Ok(bump)
    }

    /// Decide a withdrawal: the stake to split off for the burned tokens.
    pub fn withdraw_stake(
        program_id: &Address,
        ids: &ProgramIds,
        vote_account_address: &Address,
        accounts: &PoolAccounts,
        user_stake: &Address,
        pool_stake_data: &[u8],
        pool_stake_lamports: u64,
        mint_data: &[u8],
        token_amount: u64,
        network_minimum: u64,
    ) -> (r: Result<WithdrawPlan, PoolError>)
        ensures
            r == withdraw_outcome(
                program_id@,
                *ids,
                vote_account_address@,
                *accounts,
                user_stake@,
                pool_stake_data@,
                pool_stake_lamports,
                mint_data@,
                token_amount,
                network_minimum,
            ),
    {
        let bump = Self::check_pool_accounts(program_id, ids, vote_account_address, accounts)?;
        if crate::address::same_address(&accounts.pool_stake, user_stake) {
            return Err(PoolError::InvalidPoolAccountUsage);
        }
        let floor = minimum_delegation(network_minimum);
        let pool = get_stake_state(pool_stake_data)?;
        let pre_pool_stake = saturating_floor(pool.stake, floor);
        let token_supply = mint_supply(mint_data)?;
        let withdraw_stake = match calculate_withdraw_amount(token_supply, pre_pool_stake, token_amount) {
            Some(s) => s,
            None => {
                return Err(PoolError::UnexpectedMathError);
            },
        };
        if withdraw_stake == 0 {
            return Err(PoolError::WithdrawalTooSmall);
        }
        if withdraw_stake > pre_pool_stake || withdraw_stake == pool_stake_lamports {
            return Err(PoolError::WithdrawalTooLarge);
        }
        Ok(WithdrawPlan { bump, withdraw_stake })
    }
}

/// A deposit or withdrawal that names the pool stake account as the user's
/// stake account fails before any stake or token moves.
pub proof fn lemma_self_aliasing_fails(
    program: Seq<u8>,
    ids: ProgramIds,
    vote: Seq<u8>,
    a: PoolAccounts,
    pool_stake_data: Seq<u8>,
    user_stake_data: Seq<u8>,
    pool_stake_lamports: u64,
    mint_data: Seq<u8>,
    token_amount: u64,
    current_epoch: u64,
    network_minimum: u64,
)
    ensures
        deposit_start_outcome(
            program,
            ids,
            vote,
            a,
            a.pool_stake@,
            pool_stake_data,
            user_stake_data,
            current_epoch,
            network_minimum,
        ) is Err,
        withdraw_outcome(
            program,
            ids,
            vote,
            a,
            a.pool_stake@,
            pool_stake_data,
            pool_stake_lamports,
            mint_data,
            token_amount,
            network_minimum,
        ) is Err,
{
}

/// A deposit whose stake differs in activity from the pool's (active into
/// activating, or activating into active) fails before the merge.
pub proof fn lemma_activity_mismatch_fails(
    program: Seq<u8>,
    ids: ProgramIds,
    vote: Seq<u8>,
    a: PoolAccounts,
    user_stake: Seq<u8>,
    pool_stake_data: Seq<u8>,
    user_stake_data: Seq<u8>,
    current_epoch: u64,
    network_minimum: u64,
)
    requires
        stake_state_result(pool_stake_data) matches Ok(pool) && stake_state_result(user_stake_data) matches Ok(
            user,
        ) && stake_active(pool, current_epoch) != stake_active(user, current_epoch),
    ensures
        deposit_start_outcome(
            program,
            ids,
            vote,
            a,
            user_stake,
            pool_stake_data,
            user_stake_data,
            current_epoch,
            network_minimum,
        ) is Err,
{
}

} // verus!
