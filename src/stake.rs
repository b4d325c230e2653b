//! The parts of a stake account that the pool reads.

use vstd::prelude::*;
use crate::error::PoolError;
use solomka_program::stake::state::StakeState;

verus! {

/// One unit of the native token, in lamports.
pub const LAMPORTS_PER_SOL: u64 = 1_000_000_000;

/// What the pool reads of a delegated stake account.
#[derive(Clone, Copy, Debug, PartialEq, Eq, Structural)]
pub struct StakeRecord {
    /// Lamports held back so the account stays rent-exempt.
    pub rent_exempt_reserve: u64,
    /// Lamports delegated.
    pub stake: u64,
    /// Epoch in which the delegation began to activate.
    pub activation_epoch: u64,
    /// Epoch in which the delegation began to deactivate; `u64::MAX` if never.
    pub deactivation_epoch: u64,
}

impl StakeRecord {
    /// The reserve, stake, activation epoch and deactivation epoch, in that order.
    pub open spec fn fields(self) -> (u64, u64, u64, u64) {
        (self.rent_exempt_reserve, self.stake, self.activation_epoch, self.deactivation_epoch)
    }
}

/// What a stake account's data decodes to: `None` if it is no stake state at
/// all, `Some(None)` if it is a stake state other than a delegated stake, and
/// otherwise the reserve, stake, activation epoch and deactivation epoch.
pub uninterp spec fn stake_account_of(data: Seq<u8>) -> Option<Option<(u64, u64, u64, u64)>>;

/// The view of a decoded stake account.
pub open spec fn decoded_view(r: Option<Option<StakeRecord>>) -> Option<Option<(u64, u64, u64, u64)>> {
    match r {
        Some(Some(s)) => Some(Some(s.fields())),
        Some(None) => Some(None),
        None => None,
    }
}

/// Relies on `solomka_program::borsh::try_from_slice_unchecked::<StakeState>`:
/// decodes the stake program's account state from the front of the data. The
/// result depends on the data alone.
#[verifier::external_body]
fn decode_stake_account(data: &[u8]) -> (r: Option<Option<StakeRecord>>)
    ensures
        decoded_view(r) == stake_account_of(data@),
{
    match solomka_program::borsh::try_from_slice_unchecked::<StakeState>(data) {
        Ok(StakeState::Stake(meta, stake)) => Some(Some(StakeRecord {
            rent_exempt_reserve: meta.rent_exempt_reserve,
            stake: stake.delegation.stake,
            activation_epoch: stake.delegation.activation_epoch,
            deactivation_epoch: stake.delegation.deactivation_epoch,
        })),
        Ok(_) => Some(None),
        Err(_) => None,
    }
}

/// The outcome of reading a delegated stake account from its data.
pub open spec fn stake_state_result(data: Seq<u8>) -> Result<(u64, u64, u64, u64), PoolError> {
    match stake_account_of(data) {
        Some(Some(f)) => Ok(f),
        Some(None) => Err(PoolError::WrongStakeState),
        None => Err(PoolError::InvalidAccountData),
    }
}

/// Read a delegated stake account from its data.
pub fn get_stake_state(data: &[u8]) -> (r: Result<StakeRecord, PoolError>)
    ensures
        match r {
            Ok(s) => stake_state_result(data@) == Ok::<_, PoolError>(s.fields()),
            Err(e) => stake_state_result(data@) == Err::<(u64, u64, u64, u64), _>(e),
        },
{
    match decode_stake_account(data) {
        Some(Some(s)) => Ok(s),
        Some(None) => Err(PoolError::WrongStakeState),
        None => Err(PoolError::InvalidAccountData),
    }
}

/// Read the delegated amount of a stake account from its data.
pub fn get_stake_amount(data: &[u8]) -> (r: Result<u64, PoolError>)
    ensures
        match r {
            Ok(s) => stake_state_result(data@) matches Ok(f) && f.1 == s,
            Err(e) => stake_state_result(data@) == Err::<(u64, u64, u64, u64), _>(e),
        },
{
    let s = get_stake_state(data)?;
    Ok(s.stake)
}

/// Whether a delegation, given as reserve, stake, activation epoch and
/// deactivation epoch, is fully active, judged without the stake history: it
/// began activating before the current epoch and is not deactivating.
pub open spec fn stake_active(fields: (u64, u64, u64, u64), current_epoch: u64) -> bool {
    fields.2 < current_epoch && fields.3 == u64::MAX
}

/// Determine if stake is active.
pub fn is_stake_active_without_history(stake: &StakeRecord, current_epoch: u64) -> (r: bool)
    ensures
        r == stake_active(stake.fields(), current_epoch),
{
    stake.activation_epoch < current_epoch && stake.deactivation_epoch == u64::MAX
}

/// The pool's floor of delegated stake: the network's minimum delegation, but
/// never less than one whole token.
pub open spec fn minimum_delegation_floor(network_minimum: u64) -> u64 {
    if network_minimum >= LAMPORTS_PER_SOL {
        network_minimum
    } else {
        LAMPORTS_PER_SOL
    }
}

/// Minimum delegation to create a pool, from the network's minimum delegation.
pub fn minimum_delegation(network_minimum: u64) -> (r: u64)
    ensures
        r == minimum_delegation_floor(network_minimum),
        r >= LAMPORTS_PER_SOL,
        r >= network_minimum,
{
    if network_minimum >= LAMPORTS_PER_SOL {
        network_minimum
    } else {
        LAMPORTS_PER_SOL
    }
}

} // verus!
