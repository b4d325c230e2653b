//! Records of accounts that a test harness created.

use vstd::prelude::*;
use crate::address::Address;

verus! {

/// The contents of an account: its balance, data, owner and flags.
#[derive(Clone, Debug)]
pub struct AccountRecord {
    pub lamports: u64,
    pub data: Vec<u8>,
    pub owner: Address,
    pub executable: bool,
    pub rent_epoch: u64,
}

/// A token account that a test created.
#[derive(Debug)]
pub struct TokenAccountCookie {
    pub address: Address,
}

/// A wallet that a test created, with its account.
#[derive(Debug)]
pub struct WalletCookie {
    pub address: Address,
    pub account: AccountRecord,
}

} // verus!
