//! Reading the supply of a pool mint from the token program's mint layout.

use vstd::prelude::*;
use crate::error::PoolError;

verus! {

/// Size of a mint account: authority option (36 bytes), supply (8), decimals
/// (1), initialized flag (1), freeze authority option (36).
pub const MINT_LEN: usize = 82;

/// The little-endian number held by eight bytes.
pub open spec fn le_u64(b: Seq<u8>) -> int {
    b[0] + b[1] * 0x100 + b[2] * 0x10000 + b[3] * 0x1000000 + b[4] * 0x100000000
        + b[5] * 0x10000000000 + b[6] * 0x1000000000000 + b[7] * 0x100000000000000
}

/// Whether the four bytes at `at` are a valid option tag: 0 or 1, little-endian.
pub open spec fn option_tag_ok(data: Seq<u8>, at: int) -> bool {
    (data[at] == 0 || data[at] == 1) && data[at + 1] == 0 && data[at + 2] == 0 && data[at + 3] == 0
}

/// The supply held by a mint account's data, if the data is a mint.
pub open spec fn mint_supply_of(data: Seq<u8>) -> Option<int> {
    if data.len() >= 82 && option_tag_ok(data, 0) && data[45] <= 1 && option_tag_ok(data, 46) {
        Some(le_u64(data.subrange(36, 44)))
    } else {
        None
    }
}

fn option_tag_valid(data: &[u8], at: usize) -> (r: bool)
    requires
        at + 4 <= data@.len(),
    ensures
        r == option_tag_ok(data@, at as int),
{
    (data[at] == 0 || data[at] == 1) && data[at + 1] == 0 && data[at + 2] == 0 && data[at + 3] == 0
}

/// The token supply recorded in a mint account's data.
pub fn mint_supply(data: &[u8]) -> (r: Result<u64, PoolError>)
    ensures
        match r {
            Ok(s) => mint_supply_of(data@) == Some(s as int),
            Err(e) => mint_supply_of(data@) is None && e == PoolError::InvalidAccountData,
        },
{
    if data.len() < MINT_LEN || !option_tag_valid(data, 0) || data[45] > 1 || !option_tag_valid(data, 46) {
        return Err(PoolError::InvalidAccountData);
    }
    let supply: u64 = data[36] as u64 + (data[37] as u64) * 0x100 + (data[38] as u64) * 0x10000
        + (data[39] as u64) * 0x1000000 + (data[40] as u64) * 0x100000000 + (data[41] as u64)
        * 0x10000000000 + (data[42] as u64) * 0x1000000000000 + (data[43] as u64)
        * 0x100000000000000;
    assert(supply == le_u64(data@.subrange(36, 44)));
    Ok(supply)
}

} // verus!
