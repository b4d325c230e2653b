use single_pool::address::{find_metadata_address, find_pool_address_and_bump, PoolRole};
use single_pool::error::PoolError;
use single_pool::processor::{
    CreateMetadataAccounts, DepositFinish, DepositStart, InitializeAccounts, PoolAccounts,
    PoolBumps, Processor, ProgramIds, UpdateMetadataAccounts, WithdrawPlan,
};
use single_pool::resolution_error::AccountResolutionError;
use single_pool::token::{burn_data, initialize_mint2_data, mint_to_data, MINT_DECIMALS};
use solomka_program::pubkey::Pubkey;
use std::str::FromStr;

const PROGRAM: [u8; 32] = [7u8; 32];
const VOTE: [u8; 32] = [1u8; 32];
const USER_STAKE: [u8; 32] = [6u8; 32];
const SOL: u64 = 1_000_000_000;
const RESERVE: u64 = 2_282_880;

fn ids() -> ProgramIds {
    ProgramIds {
        system_program: solomka_program::system_program::id().to_bytes(),
        token_program: Pubkey::from_str("TokenkegQfeZyiNwAJbNbGKPFXCWuBvf9Ss623VQ5DA")
            .unwrap()
            .to_bytes(),
        stake_program: solomka_program::stake::program::id().to_bytes(),
        vote_program: solomka_program::vote::program::id().to_bytes(),
        metadata_program: mpl_token_metadata::id().to_bytes(),
    }
}

fn pool(role: PoolRole) -> ([u8; 32], u8) {
    find_pool_address_and_bump(&PROGRAM, &VOTE, role).unwrap()
}

fn accounts() -> PoolAccounts {
    let ids = ids();
    PoolAccounts {
        pool_stake: pool(PoolRole::Stake).0,
        pool_authority: pool(PoolRole::Authority).0,
        pool_mint: pool(PoolRole::Mint).0,
        token_program: ids.token_program,
        stake_program: ids.stake_program,
    }
}

fn stake_data(stake: u64, activation: u64, deactivation: u64) -> Vec<u8> {
    let mut d = Vec::new();
    d.extend_from_slice(&2u32.to_le_bytes());
    d.extend_from_slice(&RESERVE.to_le_bytes());
    d.extend_from_slice(&[3u8; 64]);
    d.extend_from_slice(&[0u8; 48]);
    d.extend_from_slice(&VOTE);
    d.extend_from_slice(&stake.to_le_bytes());
    d.extend_from_slice(&activation.to_le_bytes());
    d.extend_from_slice(&deactivation.to_le_bytes());
    d.extend_from_slice(&0.25f64.to_le_bytes());
    d.extend_from_slice(&0u64.to_le_bytes());
    d.resize(200, 0);
    d
}

fn mint_data(supply: u64) -> Vec<u8> {
    let mut d = vec![0u8; 82];
    d[0] = 1;
    d[36..44].copy_from_slice(&supply.to_le_bytes());
    d[44] = 9;
    d[45] = 1;
    d
}

fn vote_data(withdrawer: &[u8; 32]) -> Vec<u8> {
    let mut d = vec![0u8; 3762];
    d[0] = 1;
    d[36..68].copy_from_slice(withdrawer);
    d
}

fn begin(user: &[u8; 32], pool_data: &[u8], user_data: &[u8]) -> Result<DepositStart, PoolError> {
    Processor::begin_deposit_stake(&PROGRAM, &ids(), &VOTE, &accounts(), user, pool_data, user_data, 5, 1)
}

#[test]
fn deposit_start_prices_on_effective_stake() {
    let r = begin(&USER_STAKE, &stake_data(11 * SOL, 1, u64::MAX), &stake_data(SOL, 2, u64::MAX));
    assert_eq!(
        r,
        Ok(DepositStart {
            bump: pool(PoolRole::Authority).1,
            pre_pool_stake: 10 * SOL,
            minimum_delegation: SOL,
        })
    );
}

#[test]
fn deposit_into_activating_pool_takes_inactive_stake() {
    let r = begin(&USER_STAKE, &stake_data(SOL, 5, u64::MAX), &stake_data(SOL, 5, u64::MAX));
    assert_eq!(r.map(|s| s.pre_pool_stake), Ok(0));
}

#[test]
fn deposit_self_aliasing_fails() {
    let pool_stake = pool(PoolRole::Stake).0;
    let d = stake_data(11 * SOL, 1, u64::MAX);
    assert_eq!(begin(&pool_stake, &d, &d), Err(PoolError::InvalidPoolAccountUsage));
}

#[test]
fn deposit_activity_mismatch_fails() {
    let active = stake_data(11 * SOL, 1, u64::MAX);
    let activating = stake_data(SOL, 5, u64::MAX);
    assert_eq!(begin(&USER_STAKE, &active, &activating), Err(PoolError::WrongStakeState));
    assert_eq!(begin(&USER_STAKE, &activating, &active), Err(PoolError::WrongStakeState));
}

#[test]
fn deposit_with_wrong_pool_accounts_fails() {
    let d = stake_data(11 * SOL, 1, u64::MAX);
    let mut a = accounts();
    a.pool_mint = [0u8; 32];
    let r = Processor::begin_deposit_stake(&PROGRAM, &ids(), &VOTE, &a, &USER_STAKE, &d, &d, 5, 1);
    assert_eq!(r, Err(PoolError::InvalidPoolMint));
    let mut a = accounts();
    a.stake_program = [0u8; 32];
    let r = Processor::begin_deposit_stake(&PROGRAM, &ids(), &VOTE, &a, &USER_STAKE, &d, &d, 5, 1);
    assert_eq!(r, Err(PoolError::IncorrectProgramId));
}

#[test]
fn deposit_finish_mints_and_returns_excess() {
    let start = DepositStart { bump: 255, pre_pool_stake: 10 * SOL, minimum_delegation: SOL };
    let post = stake_data(12 * SOL, 1, u64::MAX);
    let lamports = 12 * SOL + RESERVE + RESERVE;
    let r = Processor::finish_deposit_stake(&start, &post, lamports, 0, &mint_data(10 * SOL));
    assert_eq!(r, Ok(DepositFinish { new_pool_tokens: SOL, excess_lamports: RESERVE }));
}

#[test]
fn deposit_finish_refusals() {
    let start = DepositStart { bump: 255, pre_pool_stake: 10 * SOL, minimum_delegation: SOL };
    let post = stake_data(12 * SOL, 1, u64::MAX);
    let lamports = 12 * SOL + RESERVE;
    assert_eq!(
        Processor::finish_deposit_stake(&start, &post, lamports, 1, &mint_data(10 * SOL)),
        Err(PoolError::UnexpectedMathError)
    );
    assert_eq!(
        Processor::finish_deposit_stake(&start, &post, 12 * SOL, 0, &mint_data(10 * SOL)),
        Err(PoolError::ArithmeticOverflow)
    );
    let shrunk = stake_data(10 * SOL, 1, u64::MAX);
    assert_eq!(
        Processor::finish_deposit_stake(&start, &shrunk, lamports, 0, &mint_data(10 * SOL)),
        Err(PoolError::ArithmeticOverflow)
    );
    let dust = stake_data(11 * SOL + 1, 1, u64::MAX);
    assert_eq!(
        Processor::finish_deposit_stake(&start, &dust, 11 * SOL + 1 + RESERVE, 0, &mint_data(1)),
        Err(PoolError::DepositTooSmall)
    );
}

#[test]
fn withdraw_proportional_stake() {
    let r = Processor::withdraw_stake(
        &PROGRAM,
        &ids(),
        &VOTE,
        &accounts(),
        &USER_STAKE,
        &stake_data(12 * SOL, 1, u64::MAX),
        12 * SOL + RESERVE,
        &mint_data(11 * SOL),
        1_100_000_000,
        1,
    );
    assert_eq!(
        r,
        Ok(WithdrawPlan { bump: pool(PoolRole::Authority).1, withdraw_stake: 1_100_000_000 })
    );
}

fn withdraw(user: &[u8; 32], supply: u64, tokens: u64) -> Result<WithdrawPlan, PoolError> {
    Processor::withdraw_stake(
        &PROGRAM,
        &ids(),
        &VOTE,
        &accounts(),
        user,
        &stake_data(SOL + 1, 1, u64::MAX),
        SOL + 1 + RESERVE,
        &mint_data(supply),
        tokens,
        1,
    )
}

#[test]
fn withdraw_dust_is_too_small() {
    assert_eq!(withdraw(&USER_STAKE, 1_000_000, 1), Err(PoolError::WithdrawalTooSmall));
}

#[test]
fn withdraw_beyond_supply_is_too_large() {
    assert_eq!(withdraw(&USER_STAKE, 1, 2), Err(PoolError::WithdrawalTooLarge));
    assert_eq!(withdraw(&USER_STAKE, 1, 1), Ok(WithdrawPlan { bump: pool(PoolRole::Authority).1, withdraw_stake: 1 }));
}

#[test]
fn withdraw_self_aliasing_fails() {
    let pool_stake = pool(PoolRole::Stake).0;
    assert_eq!(withdraw(&pool_stake, 1, 1), Err(PoolError::InvalidPoolAccountUsage));
}

fn init_accounts() -> InitializeAccounts {
    let ids = ids();
    InitializeAccounts {
        vote_account: VOTE,
        vote_account_owner: ids.vote_program,
        pool_stake: pool(PoolRole::Stake).0,
        pool_authority: pool(PoolRole::Authority).0,
        pool_mint: pool(PoolRole::Mint).0,
        system_program: ids.system_program,
        token_program: ids.token_program,
        stake_program: ids.stake_program,
    }
}

#[test]
fn initialize_pool_returns_bumps() {
    let r = Processor::initialize_pool(&PROGRAM, &ids(), &init_accounts(), &vote_data(&[8u8; 32]), SOL + RESERVE, RESERVE, 1);
    assert_eq!(
        r,
        Ok(PoolBumps {
            stake: pool(PoolRole::Stake).1,
            authority: pool(PoolRole::Authority).1,
            mint: pool(PoolRole::Mint).1,
        })
    );
}

#[test]
fn initialize_pool_refusals() {
    let v = vote_data(&[8u8; 32]);
    let r = Processor::initialize_pool(&PROGRAM, &ids(), &init_accounts(), &v, SOL + RESERVE - 1, RESERVE, 1);
    assert_eq!(r, Err(PoolError::WrongRentAmount));
    let r = Processor::initialize_pool(&PROGRAM, &ids(), &init_accounts(), &v, u64::MAX, u64::MAX, 1);
    assert_eq!(r.is_ok(), true);
    let mut legacy = v.clone();
    legacy[0] = 0;
    let r = Processor::initialize_pool(&PROGRAM, &ids(), &init_accounts(), &legacy, u64::MAX, RESERVE, 1);
    assert_eq!(r, Err(PoolError::LegacyVoteAccount));
    let mut a = init_accounts();
    a.system_program = [0u8; 31].iter().chain([1u8].iter()).copied().collect::<Vec<u8>>().try_into().unwrap();
    let r = Processor::initialize_pool(&PROGRAM, &ids(), &a, &v, u64::MAX, RESERVE, 1);
    assert_eq!(r, Err(PoolError::IncorrectProgramId));
    let mut a = init_accounts();
    a.pool_stake = pool(PoolRole::Mint).0;
    let r = Processor::initialize_pool(&PROGRAM, &ids(), &a, &v, u64::MAX, RESERVE, 1);
    assert_eq!(r, Err(PoolError::InvalidPoolStakeAccount));
}

fn create_accounts() -> CreateMetadataAccounts {
    let ids = ids();
    let mint = pool(PoolRole::Mint).0;
    CreateMetadataAccounts {
        pool_authority: pool(PoolRole::Authority).0,
        pool_mint: mint,
        payer: [4u8; 32],
        payer_owner: ids.system_program,
        metadata: find_metadata_address(&ids.metadata_program, &mint).unwrap().0,
        metadata_program: ids.metadata_program,
        system_program: ids.system_program,
    }
}

#[test]
fn create_metadata_checks() {
    let bump = pool(PoolRole::Authority).1;
    let m = mint_data(0);
    let r = Processor::create_pool_token_metadata(&PROGRAM, &ids(), &VOTE, &create_accounts(), true, &m);
    assert_eq!(r, Ok(bump));
    let r = Processor::create_pool_token_metadata(&PROGRAM, &ids(), &VOTE, &create_accounts(), false, &m);
    assert_eq!(r, Err(PoolError::SignatureMissing));
    let r = Processor::create_pool_token_metadata(&PROGRAM, &ids(), &VOTE, &create_accounts(), true, &m[..10]);
    assert_eq!(r, Err(PoolError::InvalidAccountData));
    let mut a = create_accounts();
    a.metadata = [4u8; 32];
    let r = Processor::create_pool_token_metadata(&PROGRAM, &ids(), &VOTE, &a, true, &m);
    assert_eq!(r, Err(PoolError::InvalidMetadataAccount));
}

fn update_accounts(withdrawer: [u8; 32]) -> UpdateMetadataAccounts {
    let ids = ids();
    let mint = pool(PoolRole::Mint).0;
    UpdateMetadataAccounts {
        vote_account: VOTE,
        vote_account_owner: ids.vote_program,
        pool_authority: pool(PoolRole::Authority).0,
        authorized_withdrawer: withdrawer,
        metadata: find_metadata_address(&ids.metadata_program, &mint).unwrap().0,
        metadata_program: ids.metadata_program,
    }
}

#[test]
fn update_metadata_checks_withdrawer() {
    let bump = pool(PoolRole::Authority).1;
    let w = [8u8; 32];
    let v = vote_data(&w);
    assert_eq!(Processor::update_pool_token_metadata(&PROGRAM, &ids(), &update_accounts(w), true, &v), Ok(bump));
    assert_eq!(
        Processor::update_pool_token_metadata(&PROGRAM, &ids(), &update_accounts(w), false, &v),
        Err(PoolError::SignatureMissing)
    );
    assert_eq!(
        Processor::update_pool_token_metadata(&PROGRAM, &ids(), &update_accounts([9u8; 32]), true, &v),
        Err(PoolError::InvalidMetadataSigner)
    );
}

#[test]
fn token_name_and_symbol() {
    let text = Pubkey::new_from_array(VOTE).to_string().into_bytes();
    let name = String::from_utf8(Processor::pool_token_name(&text)).unwrap();
    let symbol = String::from_utf8(Processor::pool_token_symbol(&text)).unwrap();
    let s = Pubkey::new_from_array(VOTE).to_string();
    assert_eq!(name, format!("SPL Single Pool {}", &s[0..15]));
    assert_eq!(symbol, format!("st{}", &s[0..7]));
}

#[test]
fn resolution_error_codes() {
    assert_eq!(AccountResolutionError::IncorrectAccount.code(), 0);
    assert_eq!(AccountResolutionError::AccountNotFound.code(), 11);
    assert_eq!(AccountResolutionError::from_code(5), Some(AccountResolutionError::InvalidPubkey));
    assert_eq!(AccountResolutionError::from_code(12), None);
}

#[test]
fn token_instruction_data() {
    assert_eq!(mint_to_data(0x0102_0304_0506_0708), vec![7u8, 8, 7, 6, 5, 4, 3, 2, 1]);
    assert_eq!(burn_data(5), vec![8u8, 5, 0, 0, 0, 0, 0, 0, 0]);
    let authority = [3u8; 32];
    let d = initialize_mint2_data(MINT_DECIMALS, &authority);
    assert_eq!(d.len(), 35);
    assert_eq!(&d[..2], &[20u8, 9]);
    assert_eq!(&d[2..34], &authority);
    assert_eq!(d[34], 0);
}
