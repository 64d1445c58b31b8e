//! The faults that abort an operation, and the texts they are reported with.
use vstd::prelude::*;

verus! {

/// The account is not registered.
pub const ERR1_ACC_NOT_REGISTERED: &'static str = "E1: account not registered";

/// The deposit does not cover the storage.
pub const ERR2_INSUFFICIENT_STORAGE: &'static str = "E2: insufficient $NEAR storage deposit";

/// There is no storage deposit to withdraw.
pub const ERR3_NO_STORAGE_CAN_WITHDRAW: &'static str = "E3: no storage can withdraw";

/// More storage deposit was asked back than there is.
pub const ERR4_STORAGE_WITHDRAW_TOO_MUCH: &'static str = "E4: storage withdraw too much";

/// The deposit is less than the least storage.
pub const ERR5_DEPOSIT_LESS_THAN_MIN_STORAGE: &'static str = "E5: deposit less than min storage";

/// A transfer names its sender as its receiver.
pub const ERR6_TRANSFER_TO_SELF: &'static str = "E6: transfer to self";

/// There are not enough shares.
pub const ERR7_INSUFFICIENT_LP_SHARES: &'static str = "E7: insufficient lp shares";

/// The call needs a deposit of the smallest amount.
pub const ERR8_AT_LEAST_ONE_YOCTO: &'static str = "E8: requires attached deposit of at least 1 yoctoNEAR";

/// The caller may not invoke the operation.
pub const ERR9_NOT_ALLOWED: &'static str = "E9: no permission to invoke this";

/// Why an operation was aborted. An operation that returns a fault has
/// left every balance and every record as it found them.
#[derive(Clone, Copy, Debug, PartialEq, Eq, Structural)]
pub enum Fault {
    /// A deposit into an entry was below one unit of the native currency.
    AmountBelowMinimum,
    /// The funds attached to a deposit call did not exceed one unit.
    DepositTooSmall,
    /// A withdrawal asked for more than the spendable balance.
    InsufficientBalance,
    /// Someone other than the entry's owner asked to withdraw from it.
    NotAccountOwner,
    /// A withdrawal from the ledger asked for more than the caller's
    /// spendable balance.
    WithdrawExceedsBalance,
    /// A lock asked for more than the spendable balance.
    LockExceedsBalance,
    /// An unlock asked for more than the locked balance.
    UnlockExceedsLocked,
    /// A release asked for more than the locked balance.
    ReleaseExceedsLocked,
    /// The entry has never held the token.
    TokenNotFound,
    /// A token lock asked for more than the entry holds of the token.
    InsufficientTokenBalance,
    /// A token unlock asked for more than is locked of the token.
    UnlockExceedsLockedTokens,
    /// The escrow of the chat has been released before.
    AlreadyReleased,
    /// No entry is registered under the identifier.
    AccountNotFound,
    /// No chat is recorded under the id.
    ChatNotFound,
    /// No offer is recorded under the id.
    OfferNotFound,
    /// The chat has been closed.
    ChatNotActive,
    /// The caller may not invoke the operation.
    NotAllowed,
    /// The operation is reserved to the owner.
    NotOwner,
    /// The operation is reserved to the account under which the ledger
    /// runs.
    NotContractOwner,
    /// Ownership cannot be accepted: nobody else was proposed, or the
    /// caller is not the one proposed.
    OwnershipNotProposed,
    /// The guardian is listed already.
    GuardianExists,
    /// The guardian is not listed.
    GuardianNotFound,
    /// The transfer that was to be settled has failed.
    TransactionFailed,
    /// A sum would not fit the width of its counter.
    Overflow,
}

impl Fault {
    /// The text of the fault.
    pub open spec fn text(self) -> Seq<char> {
        match self {
            Fault::AmountBelowMinimum => "Amount must be greater than 1 Near"@,
            Fault::DepositTooSmall => "Deposit must be greater than 1 Near"@,
            Fault::InsufficientBalance => "Insufficient balance to make a withdrawal"@,
            Fault::NotAccountOwner => "Only the owner can withdraw"@,
            Fault::WithdrawExceedsBalance => "Amount to withdraw is greater than balance, can't proceed with transaction"@,
            Fault::LockExceedsBalance => "Not enough balance to lock"@,
            Fault::UnlockExceedsLocked => "Not enough locked balance to unlock"@,
            Fault::ReleaseExceedsLocked => "Amount to release is greater than locked balance, can't proceed with transaction"@,
            Fault::TokenNotFound => "Token not found"@,
            Fault::InsufficientTokenBalance => "Insufficient token balance to lock"@,
            Fault::UnlockExceedsLockedTokens => "The token balance you are unlocking is more than the locked balance"@,
            Fault::AlreadyReleased => "Amount already released"@,
            Fault::AccountNotFound => "Account not found"@,
            Fault::ChatNotFound => "Chat not found"@,
            Fault::OfferNotFound => "Offer not found"@,
            Fault::ChatNotActive => "Chat is not active"@,
            Fault::NotAllowed => ERR9_NOT_ALLOWED@,
            Fault::NotOwner => "This method can be called only by owner"@,
            Fault::NotContractOwner => "Only contract owner can call this method"@,
            Fault::OwnershipNotProposed => "Ownership was not proposed to the caller"@,
            Fault::GuardianExists => "The guardian already exists"@,
            Fault::GuardianNotFound => "The guardian doesn't exist"@,
            Fault::TransactionFailed => "Transaction failed"@,
            Fault::Overflow => "Arithmetic overflow"@,
        }
    }

    /// The text of the fault, for a caller that reports it.
    pub fn message(&self) -> (s: String)
        ensures
            s@ == self.text(),
    {
        match self {
            Fault::AmountBelowMinimum => "Amount must be greater than 1 Near".to_string(),
            Fault::DepositTooSmall => "Deposit must be greater than 1 Near".to_string(),
            Fault::InsufficientBalance => "Insufficient balance to make a withdrawal".to_string(),
            Fault::NotAccountOwner => "Only the owner can withdraw".to_string(),
            Fault::WithdrawExceedsBalance => "Amount to withdraw is greater than balance, can't proceed with transaction".to_string(),
            Fault::LockExceedsBalance => "Not enough balance to lock".to_string(),
            Fault::UnlockExceedsLocked => "Not enough locked balance to unlock".to_string(),
            Fault::ReleaseExceedsLocked => "Amount to release is greater than locked balance, can't proceed with transaction".to_string(),
            Fault::TokenNotFound => "Token not found".to_string(),
            Fault::InsufficientTokenBalance => "Insufficient token balance to lock".to_string(),
            Fault::UnlockExceedsLockedTokens => "The token balance you are unlocking is more than the locked balance".to_string(),
            Fault::AlreadyReleased => "Amount already released".to_string(),
            Fault::AccountNotFound => "Account not found".to_string(),
            Fault::ChatNotFound => "Chat not found".to_string(),
            Fault::OfferNotFound => "Offer not found".to_string(),
            Fault::ChatNotActive => "Chat is not active".to_string(),
            Fault::NotAllowed => ERR9_NOT_ALLOWED.to_string(),
            Fault::NotOwner => "This method can be called only by owner".to_string(),
            Fault::NotContractOwner => "Only contract owner can call this method".to_string(),
            Fault::OwnershipNotProposed => "Ownership was not proposed to the caller".to_string(),
            Fault::GuardianExists => "The guardian already exists".to_string(),
            Fault::GuardianNotFound => "The guardian doesn't exist".to_string(),
            Fault::TransactionFailed => "Transaction failed".to_string(),
            Fault::Overflow => "Arithmetic overflow".to_string(),
        }
    }
}

} // verus!
