//! Exchange rate between pool tokens and pool stake.

use vstd::prelude::*;
use vstd::arithmetic::div_mod::{
    lemma_div_by_multiple, lemma_div_is_ordered, lemma_fundamental_div_mod, lemma_mod_bound,
};
use vstd::arithmetic::mul::lemma_mul_inequality;

verus! {

/// Tokens owed for a deposit of `added` stake into a pool holding `stake`
/// effective stake against `supply` outstanding tokens.
pub open spec fn deposit_tokens(supply: int, stake: int, added: int) -> int {
    if stake == 0 || supply == 0 {
        added
    } else {
        (added * supply) / stake
    }
}

/// Stake owed for burning `tokens` from a pool holding `stake` effective stake
/// against `supply` outstanding tokens; rounds down, dust gives zero.
pub open spec fn withdraw_stake(supply: int, stake: int, tokens: int) -> int {
    if supply == 0 || tokens * stake < supply {
        0
    } else {
        (tokens * stake) / supply
    }
}

/// Calculate pool tokens to mint, given outstanding token supply, pool active
/// stake, and deposit active stake. `None` when the result does not fit a `u64`.
pub fn calculate_deposit_amount(
    pre_token_supply: u64,
    pre_pool_stake: u64,
    user_stake_to_deposit: u64,
) -> (r: Option<u64>)
    ensures
        r matches Some(t) ==> t == deposit_tokens(
            pre_token_supply as int,
            pre_pool_stake as int,
            user_stake_to_deposit as int,
        ),
        r is None <==> deposit_tokens(
            pre_token_supply as int,
            pre_pool_stake as int,
            user_stake_to_deposit as int,
        ) > u64::MAX,
{
    if pre_pool_stake == 0 || pre_token_supply == 0 {
        Some(user_stake_to_deposit)
    } else {
        let added = user_stake_to_deposit as u128;
        let supply = pre_token_supply as u128;
        assert(added * supply <= u64::MAX * u64::MAX) by (nonlinear_arith)
            requires
                added <= u64::MAX,
                supply <= u64::MAX,
        ;
        let product: u128 = added * supply;
        let quotient: u128 = product / (pre_pool_stake as u128);
        if quotient > u64::MAX as u128 {
            None
        } else {
            Some(quotient as u64)
        }
    }
}

/// Calculate pool stake to return, given outstanding token supply, pool active
/// stake, and tokens to redeem. `None` when the result does not fit a `u64`.
pub fn calculate_withdraw_amount(
    pre_token_supply: u64,
    pre_pool_stake: u64,
    user_tokens_to_burn: u64,
) -> (r: Option<u64>)
    ensures
        r matches Some(s) ==> s == withdraw_stake(
            pre_token_supply as int,
            pre_pool_stake as int,
            user_tokens_to_burn as int,
        ),
        r is None <==> withdraw_stake(
            pre_token_supply as int,
            pre_pool_stake as int,
            user_tokens_to_burn as int,
        ) > u64::MAX,
{
    let tokens = user_tokens_to_burn as u128;
    let stake = pre_pool_stake as u128;
    assert(tokens * stake <= u64::MAX * u64::MAX) by (nonlinear_arith)
        requires
            tokens <= u64::MAX,
            stake <= u64::MAX,
    ;
    let numerator: u128 = tokens * stake;
    let denominator: u128 = pre_token_supply as u128;
    if numerator < denominator || denominator == 0 {
        Some(0)
    } else {
        let quotient: u128 = numerator / denominator;
        if quotient > u64::MAX as u128 {
            None
        } else {
            Some(quotient as u64)
        }
    }
}

/// For a backed pool, a larger deposit never mints fewer tokens, and a pool
/// whose supply equals its stake mints exactly one token per unit of stake.
pub proof fn lemma_deposit_monotonic_and_unit_rate(supply: u64, stake: u64, a1: u64, a2: u64)
    requires
        supply > 0,
        stake > 0,
        a1 <= a2,
    ensures
        deposit_tokens(supply as int, stake as int, a1 as int) <= deposit_tokens(
            supply as int,
            stake as int,
            a2 as int,
        ),
        deposit_tokens(supply as int, supply as int, a1 as int) == a1,
{
    lemma_mul_inequality(a1 as int, a2 as int, supply as int);
    lemma_div_is_ordered(a1 * supply, a2 * supply, stake as int);
    lemma_div_by_multiple(a1 as int, supply as int);
}

/// For a backed pool, burning at most the whole supply never releases more
/// than the pool's stake, and burning more tokens never releases less stake.
pub proof fn lemma_withdraw_bounded_and_monotonic(supply: u64, stake: u64, t1: u64, t2: u64)
    requires
        supply > 0,
        stake > 0,
        t1 <= t2,
    ensures
        t1 <= supply ==> withdraw_stake(supply as int, stake as int, t1 as int) <= stake,
        withdraw_stake(supply as int, stake as int, t1 as int) <= withdraw_stake(
            supply as int,
            stake as int,
            t2 as int,
        ),
{
    let (n, m, x, y) = (supply as int, stake as int, t1 as int, t2 as int);
    lemma_mul_inequality(x, y, m);
    lemma_div_is_ordered(x * m, y * m, n);
    if x <= n {
        lemma_mul_inequality(x, n, m);
        lemma_div_is_ordered(x * m, n * m, n);
        lemma_div_by_multiple(m, n);
        assert(n * m == m * n) by (nonlinear_arith);
    }
    assert(0 <= y * m) by (nonlinear_arith)
        requires
            y >= 0,
            m >= 0,
    ;
    if y * m >= n {
        assert(0 <= (y * m) / n) by (nonlinear_arith)
            requires
                y * m >= n,
                n > 0,
        ;
    }
}

/// Depositing stake and at once burning every token that the deposit minted
/// gives back no more stake than was deposited. A pool that holds stake but
/// no tokens is left out: it mints one token per unit, and the first burn
/// would then claim the whole stake.
pub proof fn lemma_deposit_then_withdraw(supply: u64, stake: u64, added: u64)
    requires
        !(supply == 0 && stake > 0),
    ensures
        withdraw_stake(
            supply + deposit_tokens(supply as int, stake as int, added as int),
            stake + added,
            deposit_tokens(supply as int, stake as int, added as int),
        ) <= added,
{
    let (n, m, a) = (supply as int, stake as int, added as int);
    let t = deposit_tokens(n, m, a);
    let s = n + t;
    let k = m + a;
    if m > 0 {
        let p = a * n;
        assert(p >= 0) by (nonlinear_arith)
            requires
                a >= 0,
                n >= 0,
                p == a * n,
        ;
        lemma_fundamental_div_mod(p, m);
        lemma_mod_bound(p, m);
        assert(t * m <= a * n) by (nonlinear_arith)
            requires
                t == p / m,
                p == m * (p / m) + (p % m),
                p % m >= 0,
                p == a * n,
        ;
    } else {
        assert(t * m == 0) by (nonlinear_arith)
            requires
                m == 0,
        ;
    }
    assert(t >= 0) by (nonlinear_arith)
        requires
            t == deposit_tokens(n, m, a),
            n >= 0,
            m >= 0,
            a >= 0,
    ;
    assert(t * k <= a * s) by (nonlinear_arith)
        requires
            t * m <= a * n,
            k == m + a,
            s == n + t,
    ;
    if s > 0 && t * k >= s {
        lemma_div_is_ordered(t * k, a * s, s);
        lemma_div_by_multiple(a, s);
    }
}

} // verus!
