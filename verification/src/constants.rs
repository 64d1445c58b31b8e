//! Amounts and a few well-known account identifiers.
use crate::account_id::{valid_account_id, AccountId};
use vstd::prelude::*;

verus! {

/// One unit of the native currency, counted in its smallest denomination.
pub const ONE_NEAR: u128 = 1_000_000_000_000_000_000_000_000;

/// The smallest amount of the native currency.
pub const ONE_YOCTO: u128 = 1;

/// The storage that the entry of a new account takes, in bytes.
pub const INIT_ACCOUNT_STORAGE: u64 = 102;

/// The gas for a plain call of the ledger on itself.
pub const GAS_FOR_BASIC_OP: u64 = 10_000_000_000_000;

/// The gas for settling a transfer.
pub const GAS_FOR_RESOLVE_TRANSFER: u64 = 20_000_000_000_000;

/// The gas for a transfer of tokens with a call.
pub const GAS_FOR_FT_TRANSFER_CALL: u64 = 45_000_000_000_000;

/// The gas for a transfer of tokens.
pub const GAS_FOR_FT_TRANSFER: u64 = 20_000_000_000_000;

/// The identifier that `account_id` spells.
#[allow(non_snake_case)]
pub fn getAccountId(account_id: String) -> (id: AccountId)
    requires
        valid_account_id(account_id@),
    ensures
        id@ == account_id@,
{
    AccountId::new(account_id)
}

/// A well-known account.
pub fn supercode() -> (id: AccountId)
    ensures
        id@ == "supercode.testnet"@,
{
    proof {
        reveal_strlit("supercode.testnet");
    }
    getAccountId("supercode.testnet".to_string())
}

/// A well-known account.
pub fn dalmasonto() -> (id: AccountId)
    ensures
        id@ == "dalmasonto.testnet"@,
{
    proof {
        reveal_strlit("dalmasonto.testnet");
    }
    getAccountId("dalmasonto.testnet".to_string())
}

/// The account of a well-known token.
pub fn usdn() -> (id: AccountId)
    ensures
        id@ == "usdn.testnet"@,
{
    proof {
        reveal_strlit("usdn.testnet");
    }
    getAccountId("usdn.testnet".to_string())
}

/// A well-known account.
pub fn master() -> (id: AccountId)
    ensures
        id@ == "master.testnet"@,
{
    proof {
        reveal_strlit("master.testnet");
    }
    getAccountId("master.testnet".to_string())
}

/// A well-known account.
pub fn master1() -> (id: AccountId)
    ensures
        id@ == "master1.testnet"@,
{
    proof {
        reveal_strlit("master1.testnet");
    }
    getAccountId("master1.testnet".to_string())
}

} // verus!
