//! Derived pool addresses and the checks on accounts supplied by a caller.

use vstd::prelude::*;
use crate::error::PoolError;

verus! {

/// A 32-byte account address.
pub type Address = [u8; 32];

/// The three accounts that a pool derives from its vote account.
#[derive(Clone, Copy, Debug, PartialEq, Eq, Structural)]
pub enum PoolRole {
    Stake,
    Authority,
    Mint,
}

/// What the program-address search returns for the given seeds and program:
/// the first address off the curve, with its bump, if any.
pub uninterp spec fn program_address_of(seeds: Seq<Seq<u8>>, program: Seq<u8>) -> Option<(Seq<u8>, u8)>;

/// Relies on `Pubkey::try_find_program_address`: a hash of the seeds, a bump
/// byte and the program id, searched from bump 255 down. The result depends on
/// the seeds and program id alone, and is `None` when no bump gives an address
/// off the curve.
#[verifier::external_body]
fn try_find_program_address(seeds: &Vec<Vec<u8>>, program_id: &Address) -> (r: Option<(Address, u8)>)
    ensures
        option_address_view(r) == program_address_of(seeds.deep_view(), program_id@),
{
    let slices: Vec<&[u8]> = seeds.iter().map(|s| s.as_slice()).collect();
    let program = solomka_program::pubkey::Pubkey::new_from_array(*program_id);
    solomka_program::pubkey::Pubkey::try_find_program_address(&slices, &program).map(
        |(a, b)| (a.to_bytes(), b),
    )
}

/// The view of an optional address and bump.
pub open spec fn option_address_view(r: Option<(Address, u8)>) -> Option<(Seq<u8>, u8)> {
    match r {
        Some((a, b)) => Some((a@, b)),
        None => None,
    }
}

/// The seed prefix of each pool role: "stake", "authority", "mint".
pub open spec fn role_prefix(role: PoolRole) -> Seq<u8> {
    match role {
        PoolRole::Stake => seq![115u8, 116u8, 97u8, 107u8, 101u8],
        PoolRole::Authority => seq![97u8, 117u8, 116u8, 104u8, 111u8, 114u8, 105u8, 116u8, 121u8],
        PoolRole::Mint => seq![109u8, 105u8, 110u8, 116u8],
    }
}

/// The seed prefix of a token metadata account: "metadata".
pub open spec fn metadata_prefix() -> Seq<u8> {
    seq![109u8, 101u8, 116u8, 97u8, 100u8, 97u8, 116u8, 97u8]
}

/// The seeds of a pool account: the role's prefix, then the vote account address.
pub open spec fn pool_seeds(role: PoolRole, vote: Seq<u8>) -> Seq<Seq<u8>> {
    seq![role_prefix(role), vote]
}

/// The address and bump of the pool account with the given role.
pub open spec fn pool_address(program: Seq<u8>, vote: Seq<u8>, role: PoolRole) -> Option<(Seq<u8>, u8)> {
    program_address_of(pool_seeds(role, vote), program)
}

/// The address and bump of the metadata account of a mint.
pub open spec fn metadata_address(metadata_program: Seq<u8>, mint: Seq<u8>) -> Option<(Seq<u8>, u8)> {
    program_address_of(seq![metadata_prefix(), metadata_program, mint], metadata_program)
}

/// The error for an account that is not the pool account of the given role.
pub open spec fn role_error(role: PoolRole) -> PoolError {
    match role {
        PoolRole::Stake => PoolError::InvalidPoolStakeAccount,
        PoolRole::Authority => PoolError::InvalidPoolAuthority,
        PoolRole::Mint => PoolError::InvalidPoolMint,
    }
}

fn role_prefix_bytes(role: PoolRole) -> (r: Vec<u8>)
    ensures
        r@ == role_prefix(role),
{
    let r = match role {
        PoolRole::Stake => vec![115u8, 116u8, 97u8, 107u8, 101u8],
        PoolRole::Authority => vec![97u8, 117u8, 116u8, 104u8, 111u8, 114u8, 105u8, 116u8, 121u8],
        PoolRole::Mint => vec![109u8, 105u8, 110u8, 116u8],
    };
    assert(r@ =~= role_prefix(role));
    r
}

fn address_bytes(a: &Address) -> (r: Vec<u8>)
    ensures
        r@ == a@,
{
    let mut r: Vec<u8> = Vec::new();
    let mut i: usize = 0;
    while i < 32
        invariant
            i <= 32,
            a@.len() == 32,
            r@ =~= a@.subrange(0, i as int),
        decreases 32 - i,
    {
        r.push(a[i]);
        i = i + 1;
    }
    assert(r@ =~= a@);
    r
}

/// Whether two addresses are the same.
pub fn same_address(a: &Address, b: &Address) -> (r: bool)
    ensures
        r == (a@ == b@),
{
    let mut i: usize = 0;
    while i < 32
        invariant
            i <= 32,
            a@.len() == 32,
            b@.len() == 32,
            forall|j: int| 0 <= j < i ==> a@[j] == b@[j],
        decreases 32 - i,
    {
        if a[i] != b[i] {
            return false;
        }
        i = i + 1;
    }
    assert(a@ =~= b@);
    true
}

/// The seeds with which the pool signs as the account of the given role: the
/// role's prefix, the vote account address, and the bump.
pub fn pool_signer_seeds(role: PoolRole, vote_account_address: &Address, bump: u8) -> (r: Vec<Vec<u8>>)
    ensures
        r.deep_view() == pool_seeds(role, vote_account_address@).push(seq![bump]),
{
    let prefix = role_prefix_bytes(role);
    let vote = address_bytes(vote_account_address);
    let bump_bytes: Vec<u8> = vec![bump];
    assert(prefix.deep_view() =~= prefix@);
    assert(vote.deep_view() =~= vote@);
    assert(bump_bytes.deep_view() =~= seq![bump]);
    let seeds: Vec<Vec<u8>> = vec![prefix, vote, bump_bytes];
    assert(seeds.deep_view() =~= pool_seeds(role, vote_account_address@).push(seq![bump]));
    seeds
}

/// Find the address and bump of the pool account with the given role for a
/// vote account; `None` when no bump gives a valid program address.
pub fn find_pool_address_and_bump(program_id: &Address, vote_account_address: &Address, role: PoolRole) -> (r: Option<(Address, u8)>)
    ensures
        option_address_view(r) == pool_address(program_id@, vote_account_address@, role),
{
    let prefix = role_prefix_bytes(role);
    let vote = address_bytes(vote_account_address);
    assert(prefix.deep_view() =~= prefix@);
    assert(vote.deep_view() =~= vote@);
    let seeds: Vec<Vec<u8>> = vec![prefix, vote];
    assert(seeds.deep_view() =~= pool_seeds(role, vote_account_address@));
    try_find_program_address(&seeds, program_id)
}

/// Find the address and bump of the metadata account of a pool mint under the
/// token metadata program.
pub fn find_metadata_address(metadata_program_id: &Address, mint: &Address) -> (r: Option<(Address, u8)>)
    ensures
        option_address_view(r) == metadata_address(metadata_program_id@, mint@),
{
    let prefix: Vec<u8> = vec![109u8, 101u8, 116u8, 97u8, 100u8, 97u8, 116u8, 97u8];
    assert(prefix@ =~= metadata_prefix());
    let program = address_bytes(metadata_program_id);
    let mint_bytes = address_bytes(mint);
    assert(prefix.deep_view() =~= prefix@);
    assert(program.deep_view() =~= program@);
    assert(mint_bytes.deep_view() =~= mint_bytes@);
    let seeds: Vec<Vec<u8>> = vec![prefix, program, mint_bytes];
    assert(seeds.deep_view() =~= seq![metadata_prefix(), metadata_program_id@, mint@]);
    try_find_program_address(&seeds, metadata_program_id)
}

/// Check that `address` is the pool account of the given role for the vote
/// account, and return its bump.
pub fn check_pool_address(
    program_id: &Address,
    vote_account_address: &Address,
    role: PoolRole,
    address: &Address,
) -> (r: Result<u8, PoolError>)
    ensures
        r == pool_check(program_id@, vote_account_address@, role, address@),
{
    match find_pool_address_and_bump(program_id, vote_account_address, role) {
        Some((expected, bump)) => {
            if same_address(address, &expected) {
                Ok(bump)
            } else {
                Err(match role {
                    PoolRole::Stake => PoolError::InvalidPoolStakeAccount,
                    PoolRole::Authority => PoolError::InvalidPoolAuthority,
                    PoolRole::Mint => PoolError::InvalidPoolMint,
                })
            }
        },
        None => Err(match role {
            PoolRole::Stake => PoolError::InvalidPoolStakeAccount,
            PoolRole::Authority => PoolError::InvalidPoolAuthority,
            PoolRole::Mint => PoolError::InvalidPoolMint,
        }),
    }
}

/// The outcome of checking that `address` is the pool account of the given
/// role: its bump, or the role's error.
pub open spec fn pool_check(program: Seq<u8>, vote: Seq<u8>, role: PoolRole, address: Seq<u8>) -> Result<u8, PoolError> {
    match pool_address(program, vote, role) {
        Some((a, b)) => if a == address {
            Ok(b)
        } else {
            Err(role_error(role))
        },
        None => Err(role_error(role)),
    }
}

/// The outcome of checking that a program account is the expected program.
pub open spec fn program_check(address: Seq<u8>, expected: Seq<u8>) -> Result<(), PoolError> {
    if address == expected {
        Ok(())
    } else {
        Err(PoolError::IncorrectProgramId)
    }
}

/// The outcome of checking that `address` is the metadata account of a mint.
pub open spec fn metadata_check(metadata_program: Seq<u8>, address: Seq<u8>, mint: Seq<u8>) -> Result<(), PoolError> {
    match metadata_address(metadata_program, mint) {
        Some((a, _)) => if a == address {
            Ok(())
        } else {
            Err(PoolError::InvalidMetadataAccount)
        },
        None => Err(PoolError::InvalidMetadataAccount),
    }
}

/// Check that `metadata_address` is the metadata account of the pool mint.
pub fn check_metadata_account_address(
    metadata_program_id: &Address,
    metadata_address_given: &Address,
    pool_mint: &Address,
) -> (r: Result<(), PoolError>)
    ensures
        r == metadata_check(metadata_program_id@, metadata_address_given@, pool_mint@),
{
    match find_metadata_address(metadata_program_id, pool_mint) {
        Some((expected, _)) => {
            if same_address(&expected, metadata_address_given) {
                Ok(())
            } else {
                Err(PoolError::InvalidMetadataAccount)
            }
        },
        None => Err(PoolError::InvalidMetadataAccount),
    }
}

/// Check that a program account is the expected program.
pub fn check_program(address: &Address, expected: &Address) -> (r: Result<(), PoolError>)
    ensures
        r == program_check(address@, expected@),
{
    if same_address(address, expected) {
        Ok(())
    } else {
        Err(PoolError::IncorrectProgramId)
    }
}

/// Check that an account is owned by the given program.
pub fn check_account_owner(owner: &Address, program_id: &Address) -> (r: Result<(), PoolError>)
    ensures
        r == program_check(owner@, program_id@),
{
    check_program(owner, program_id)
}

/// Deriving a pool account twice gives the same address and bump.
pub proof fn lemma_pool_address_deterministic(
    program: Address,
    vote: Address,
    role: PoolRole,
    r1: Option<(Address, u8)>,
    r2: Option<(Address, u8)>,
)
    requires
        option_address_view(r1) == pool_address(program@, vote@, role),
        option_address_view(r2) == pool_address(program@, vote@, role),
    ensures
        r1 == r2,
{
    match (r1, r2) {
        (Some((a1, b1)), Some((a2, b2))) => {
            assert(a1@ == a2@);
            assert(a1 =~= a2);
        },
        _ => {},
    }
}

} // verus!
