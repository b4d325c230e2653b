//! Instruction data for the token program calls that the pool makes.

use vstd::prelude::*;
use crate::address::Address;

verus! {

/// Decimals of the pool mint.
pub const MINT_DECIMALS: u8 = 9;

/// The `n` low bytes of `x`, least significant first.
pub open spec fn le_bytes(x: nat, n: nat) -> Seq<u8>
    decreases n,
{
    if n == 0 {
        Seq::empty()
    } else {
        seq![(x % 256) as u8] + le_bytes(x / 256, (n - 1) as nat)
    }
}

/// Data of the token program's `MintTo`: tag 7, then the amount.
pub open spec fn mint_to_data_of(amount: u64) -> Seq<u8> {
    seq![7u8] + le_bytes(amount as nat, 8)
}

/// Data of the token program's `Burn`: tag 8, then the amount.
pub open spec fn burn_data_of(amount: u64) -> Seq<u8> {
    seq![8u8] + le_bytes(amount as nat, 8)
}

/// Data of the token program's `InitializeMint2`: tag 20, the decimals, the
/// mint authority, and no freeze authority.
pub open spec fn initialize_mint2_data_of(decimals: u8, authority: Seq<u8>) -> Seq<u8> {
    seq![20u8, decimals] + authority + seq![0u8]
}

fn push_le_u64(r: &mut Vec<u8>, x: u64)
    ensures
        final(r)@ == old(r)@ + le_bytes(x as nat, 8),
{
    let mut v: u64 = x;
    let mut i: usize = 0;
    while i < 8
        invariant
            i <= 8,
            r@ + le_bytes(v as nat, (8 - i) as nat) == old(r)@ + le_bytes(x as nat, 8),
        decreases 8 - i,
    {
        let ghost before = r@;
        assert(le_bytes(v as nat, (8 - i) as nat) == seq![(v % 256) as u8] + le_bytes(
            (v / 256) as nat,
            (8 - i - 1) as nat,
        ));
        r.push((v % 256) as u8);
        v = v / 256;
        i = i + 1;
        assert(r@ + le_bytes(v as nat, (8 - i) as nat) =~= before + (seq![r@.last()] + le_bytes(
            v as nat,
            (8 - i) as nat,
        )));
    }
    assert(le_bytes(v as nat, 0) =~= Seq::<u8>::empty());
    assert(r@ =~= r@ + le_bytes(v as nat, 0));
}

/// Instruction data to mint `amount` pool tokens.
pub fn mint_to_data(amount: u64) -> (r: Vec<u8>)
    ensures
        r@ == mint_to_data_of(amount),
{
    let mut r: Vec<u8> = vec![7u8];
    push_le_u64(&mut r, amount);
    r
}

/// Instruction data to burn `amount` pool tokens.
pub fn burn_data(amount: u64) -> (r: Vec<u8>)
    ensures
        r@ == burn_data_of(amount),
{
    let mut r: Vec<u8> = vec![8u8];
    push_le_u64(&mut r, amount);
    r
}

/// Instruction data to initialize the pool mint with the given authority.
pub fn initialize_mint2_data(decimals: u8, authority: &Address) -> (r: Vec<u8>)
    ensures
        r@ == initialize_mint2_data_of(decimals, authority@),
{
    let mut r: Vec<u8> = vec![20u8, decimals];
    let mut i: usize = 0;
    while i < 32
        invariant
            i <= 32,
            authority@.len() == 32,
            r@ == seq![20u8, decimals] + authority@.subrange(0, i as int),
        decreases 32 - i,
    {
        r.push(authority[i]);
        i = i + 1;
        assert(r@ =~= seq![20u8, decimals] + authority@.subrange(0, i as int));
    }
    r.push(0u8);
    assert(r@ =~= initialize_mint2_data_of(decimals, authority@));
    r
}

} // verus!
