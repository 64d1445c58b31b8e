use escrow_ledger::account::Account;
use escrow_ledger::account_id::AccountId;
use escrow_ledger::constants::{
    dalmasonto, getAccountId, master, master1, supercode, usdn, ONE_NEAR, ONE_YOCTO,
};
use escrow_ledger::errors::{Fault, ERR9_NOT_ALLOWED};
use escrow_ledger::fee::{compute_escrow, compute_trade_cost, RATE_SCALE};
use escrow_ledger::text::to_decimal;
use escrow_ledger::{Context, Contract};

fn get_context(attached_deposit: u128) -> Context {
    Context {
        current_account_id: master(),
        predecessor_account_id: supercode(),
        block_timestamp: 1_700_000_000_000_000_000,
        attached_deposit,
    }
}

enum LedgerStep {
    Deposit(u128),
    Withdraw(u128),
    Lock(u128),
    Unlock(u128),
    Release(u128),
}

fn alice() -> AccountId {
    getAccountId("alice.near".to_string())
}

#[test]
fn test_test() {
    assert!(true);
}

#[test]
fn register_new_account() {
    let ctx = get_context(0);
    let mut contract = Contract::new(&ctx);

    let account_id = alice();
    assert_eq!(contract.accounts.len(), 0);
    let result = contract.register_new_account(&ctx, account_id);

    assert_eq!(
        result,
        "Account registered successfully".to_string(),
        "ERROR: ACCOUNT REGISTRATION FAILED"
    );
}

#[test]
fn get_account() {
    let ctx = get_context(0);
    let mut contract = Contract::new(&ctx);

    contract.register_new_account(&ctx, alice());

    let acc = contract.get_account(alice()).unwrap();

    assert_eq!(acc.id, alice(), "ERROR: ACCOUNT ID MISMATCH, USER NOT FOUND");
}

#[test]
fn deposit_into_account_and_contract() {
    let ctx = get_context(ONE_NEAR * 5);
    let mut contract = Contract::new(&ctx);
    contract.register_new_account(&ctx, supercode());

    contract.contract_deposit(&ctx, &supercode()).unwrap();

    assert_eq!(contract.get_transfers_len(), 1, "ERROR: TRANSFER COUNT SHOULD BE 1");

    let acc = contract.get_account(supercode()).unwrap();

    assert_eq!(acc.balance, ONE_NEAR * 5, "ERROR: supercode() ACCOUNT BALANCE MISMATCH\n");
}

#[test]
fn withdraw_from_contract() {
    let ctx = get_context(5 * ONE_NEAR);
    let mut contract = Contract::new(&ctx);

    contract.register_new_account(&ctx, supercode());
    contract.contract_deposit(&ctx, &supercode()).unwrap();
    let payout = contract.withdraw_near(&ctx, 2 * ONE_NEAR).unwrap();

    assert_eq!(
        contract.get_transfers_len(),
        2,
        "ERROR: TRANSFER COUNT SHOULD BE 2, (Indicating a deposit and withdraw)"
    );

    let acc = contract.get_account(supercode()).unwrap();

    assert_eq!(acc.balance, ONE_NEAR * 3, "ERROR: supercode() ACCOUNT BALANCE MISMATCH\n");
    assert_eq!(payout.to, supercode());
    assert_eq!(payout.amount, 2 * ONE_NEAR);
}

#[test]
fn create_offer() {
    let ctx = get_context(ONE_NEAR * 5);
    let mut contract = Contract::new(&ctx);
    contract.register_new_account(&ctx, supercode());

    contract.contract_deposit(&ctx, &supercode()).unwrap();

    contract
        .add_offer(
            "somestrangeid".to_string(),
            "buy".to_string(),
            supercode(),
            10 * ONE_NEAR,
            40 * ONE_NEAR,
            1_000_000,
            "M-Pesa".to_string(),
            "KES".to_string(),
            "Send money over".to_string(),
        )
        .unwrap();
    contract
        .add_offer(
            "somestrangeid2".to_string(),
            "sell".to_string(),
            supercode(),
            1 * ONE_NEAR,
            5 * ONE_NEAR,
            1_000_000,
            "M-Pesa".to_string(),
            "KES".to_string(),
            "Send money over".to_string(),
        )
        .unwrap();

    println!("{:#?}", contract);

    assert_eq!(contract.offers.len(), 2, "ERROR: OFFER COUNT SHOULD BE 2")
}

#[test]
fn account_id_follows_the_rule_of_the_sdk() {
    for id in [
        "aa", "a-a", "100", "0o", "near", "b-o_w_e-n", "bro.wen", "a.b-a.ra", "over.9000",
        "illia.cheapaccounts.near", "10-4.8-2",
        "0123456789012345678901234567890123456789012345678901234567890123",
    ] {
        assert!(AccountId::parse(id.to_string()).is_some(), "{}", id);
        assert!(near_sdk::env::is_valid_account_id(id.as_bytes()), "{}", id);
    }
    for id in [
        "", "a", "A", "Abc", "-near", "near-", "-near-", "near.", ".near", "near@", "@near",
        "@@@@@", "0__0", "0_-_0", "0_-_0", "..", "a..near", "nEar", "_bowen", "hello world",
        "é",
        "01234567890123456789012345678901234567890123456789012345678901234",
    ] {
        assert!(AccountId::parse(id.to_string()).is_none(), "{}", id);
        assert!(!near_sdk::env::is_valid_account_id(id.as_bytes()), "{}", id);
    }
}

#[test]
fn well_known_accounts_and_constants() {
    assert_eq!(supercode().to_string(), "supercode.testnet");
    assert_eq!(dalmasonto().to_string(), "dalmasonto.testnet");
    assert_eq!(usdn().to_string(), "usdn.testnet");
    assert_eq!(master().to_string(), "master.testnet");
    assert_eq!(master1().to_string(), "master1.testnet");
    assert_eq!(getAccountId("alice.near".to_string()).as_string(), "alice.near");
    assert_eq!(ONE_NEAR, near_sdk::ONE_NEAR);
    assert_eq!(ONE_YOCTO, near_sdk::ONE_YOCTO);
    assert_eq!(ERR9_NOT_ALLOWED, "E9: no permission to invoke this");
    assert!(supercode() == supercode().clone());
    assert!(supercode() != master());
}

#[test]
fn new_entry_is_empty() {
    let acc = Account::new(alice(), 77);
    assert_eq!(acc.id, alice());
    assert_eq!((acc.balance, acc.locked), (0, 0));
    assert_eq!((acc.likes, acc.dislikes, acc.blocked_by), (0, 0, 0));
    assert_eq!(acc.created_on, 77);
    assert_eq!(acc.tokens.len(), 0);
    assert_eq!(acc.locked_tokens.len(), 0);
    assert_eq!(acc.get_token_balance(usdn()), Err(Fault::TokenNotFound));
}

#[test]
fn deposit_needs_one_unit() {
    let mut acc = Account::new(alice(), 0);
    assert_eq!(acc.deposit(ONE_NEAR - 1), Err(Fault::AmountBelowMinimum));
    assert_eq!(acc.balance, 0);
    assert_eq!(acc.deposit(ONE_NEAR), Ok(()));
    assert_eq!(acc.balance, ONE_NEAR);
    assert_eq!(acc.deposit(u128::MAX), Err(Fault::Overflow));
    assert_eq!(acc.balance, ONE_NEAR);
}

#[test]
fn withdraw_is_for_the_owner_and_within_balance() {
    let mut acc = Account::new(alice(), 0);
    acc.deposit(3 * ONE_NEAR).unwrap();
    assert_eq!(acc.withdraw(&alice(), 4 * ONE_NEAR), Err(Fault::InsufficientBalance));
    assert_eq!(acc.withdraw(&supercode(), ONE_NEAR), Err(Fault::NotAccountOwner));
    assert_eq!(acc.balance, 3 * ONE_NEAR);
    assert_eq!(acc.withdraw(&alice(), ONE_NEAR), Ok(()));
    assert_eq!(acc.balance, 2 * ONE_NEAR);
}

#[test]
fn lock_fails_and_changes_nothing_when_amount_exceeds_balance() {
    let mut acc = Account::new(alice(), 0);
    acc.deposit(2 * ONE_NEAR).unwrap();
    assert_eq!(acc.lock(2 * ONE_NEAR + 1), Err(Fault::LockExceedsBalance));
    assert_eq!((acc.balance, acc.locked), (2 * ONE_NEAR, 0));
    assert_eq!(acc.lock(2 * ONE_NEAR), Ok(()));
    assert_eq!((acc.balance, acc.locked), (0, 2 * ONE_NEAR));
    assert_eq!(acc.unlock(2 * ONE_NEAR + 1), Err(Fault::UnlockExceedsLocked));
    assert_eq!((acc.balance, acc.locked), (0, 2 * ONE_NEAR));
    assert_eq!(acc.unlock(ONE_NEAR), Ok(()));
    assert_eq!((acc.balance, acc.locked), (ONE_NEAR, ONE_NEAR));
}

#[test]
fn lock_and_unlock_overflow_are_faults() {
    let mut acc = Account::new(alice(), 0);
    acc.balance = 10;
    acc.locked = u128::MAX - 5;
    assert_eq!(acc.lock(6), Err(Fault::Overflow));
    assert_eq!((acc.balance, acc.locked), (10, u128::MAX - 5));
    acc.balance = u128::MAX - 1;
    acc.locked = 10;
    assert_eq!(acc.unlock(2), Err(Fault::Overflow));
    assert_eq!(acc.release(&alice(), 2, supercode()).err(), Some(Fault::Overflow));
    assert_eq!((acc.balance, acc.locked), (u128::MAX - 1, 10));
}

#[test]
fn release_unlocks_and_withdraws() {
    let mut acc = Account::new(alice(), 0);
    acc.deposit(5 * ONE_NEAR).unwrap();
    acc.lock(2 * ONE_NEAR).unwrap();
    assert_eq!(
        acc.release(&alice(), 3 * ONE_NEAR, supercode()).err(),
        Some(Fault::ReleaseExceedsLocked)
    );
    assert_eq!(
        acc.release(&supercode(), 2 * ONE_NEAR, supercode()).err(),
        Some(Fault::NotAccountOwner)
    );
    assert_eq!((acc.balance, acc.locked), (3 * ONE_NEAR, 2 * ONE_NEAR));
    let payout = acc.release(&alice(), 2 * ONE_NEAR, supercode()).unwrap();
    assert_eq!(payout.to, supercode());
    assert_eq!(payout.amount, 2 * ONE_NEAR);
    assert_eq!((acc.balance, acc.locked), (3 * ONE_NEAR, 0));
}

#[test]
fn conservation_over_a_sequence() {
    let mut acc = Account::new(alice(), 0);
    let mut deposited: u128 = 0;
    let mut paid_out: u128 = 0;
    let steps = [
        LedgerStep::Deposit(5 * ONE_NEAR),
        LedgerStep::Lock(2 * ONE_NEAR),
        LedgerStep::Withdraw(ONE_NEAR),
        LedgerStep::Lock(9 * ONE_NEAR),
        LedgerStep::Unlock(ONE_NEAR),
        LedgerStep::Deposit(1),
        LedgerStep::Withdraw(7 * ONE_NEAR),
        LedgerStep::Release(ONE_NEAR),
        LedgerStep::Unlock(3 * ONE_NEAR),
        LedgerStep::Deposit(2 * ONE_NEAR),
    ];
    for step in steps {
        match step {
            LedgerStep::Deposit(a) => {
                if acc.deposit(a).is_ok() {
                    deposited += a;
                }
            }
            LedgerStep::Withdraw(a) => {
                if acc.withdraw(&alice(), a).is_ok() {
                    paid_out += a;
                }
            }
            LedgerStep::Lock(a) => {
                let _ = acc.lock(a);
            }
            LedgerStep::Unlock(a) => {
                let _ = acc.unlock(a);
            }
            LedgerStep::Release(a) => {
                if acc.release(&alice(), a, supercode()).is_ok() {
                    paid_out += a;
                }
            }
        }
        assert_eq!(acc.balance + acc.locked, deposited - paid_out);
    }
    assert_eq!(deposited, 7 * ONE_NEAR);
    assert_eq!(paid_out, 2 * ONE_NEAR);
    assert_eq!((acc.balance, acc.locked), (5 * ONE_NEAR, 0));
}

#[test]
fn token_conservation_over_a_sequence() {
    let mut acc = Account::new(alice(), 0);
    acc.deposit(3 * ONE_NEAR).unwrap();
    let held = |acc: &Account| {
        let key = "usdn.testnet".to_string();
        acc.tokens.get(&key).copied().unwrap_or(0)
            + acc.locked_tokens.get(&key).copied().unwrap_or(0)
    };
    let mut flow: u128 = 0;
    assert_eq!(acc.lock_tokens(usdn(), 1), Err(Fault::TokenNotFound));
    if acc.deposit_tokens(usdn(), 50).is_ok() {
        flow += 50;
    }
    assert_eq!(held(&acc), flow);
    let _ = acc.lock_tokens(usdn(), 30);
    assert_eq!(held(&acc), flow);
    let _ = acc.lock_tokens(usdn(), 30);
    assert_eq!(held(&acc), flow);
    acc.withdraw_tokens(usdn(), 25);
    assert_eq!(held(&acc), flow);
    acc.withdraw_tokens(usdn(), 5);
    flow -= 5;
    assert_eq!(held(&acc), flow);
    let _ = acc.unlock_tokens(usdn(), 10);
    assert_eq!(held(&acc), flow);
    if acc.token_release(usdn(), 20).is_ok() {
        flow -= 20;
    }
    assert_eq!(held(&acc), flow);
    if acc.token_release(usdn(), 1).is_ok() {
        flow -= 1;
    }
    acc.deposit_tokens(master(), 9).unwrap();
    assert_eq!(held(&acc), flow);
    assert_eq!(flow, 25);
    assert_eq!(acc.get_token_balance(usdn()), Ok(25));
    assert_eq!(acc.get_token_balance(master()), Ok(9));
    assert_eq!((acc.balance, acc.locked), (3 * ONE_NEAR, 0));
}

#[test]
fn token_deposit_and_soft_withdraw() {
    let mut acc = Account::new(alice(), 0);
    acc.withdraw_tokens(usdn(), 5);
    assert_eq!(acc.tokens.len(), 0);
    assert_eq!(acc.deposit_tokens(usdn(), 10), Ok(()));
    assert_eq!(acc.deposit_tokens(usdn(), 5), Ok(()));
    assert_eq!(acc.get_token_balance(usdn()), Ok(15));
    acc.withdraw_tokens(usdn(), 16);
    assert_eq!(acc.get_token_balance(usdn()), Ok(15));
    acc.withdraw_tokens(usdn(), 4);
    assert_eq!(acc.get_token_balance(usdn()), Ok(11));
    assert_eq!(acc.deposit_tokens(usdn(), u128::MAX), Err(Fault::Overflow));
    assert_eq!(acc.get_token_balance(usdn()), Ok(11));
    assert_eq!(acc.get_token_balance(master()), Err(Fault::TokenNotFound));
}

#[test]
fn token_lock_unlock_and_release() {
    let mut acc = Account::new(alice(), 0);
    assert_eq!(acc.lock_tokens(usdn(), 1), Err(Fault::TokenNotFound));
    assert_eq!(acc.unlock_tokens(usdn(), 1), Err(Fault::TokenNotFound));
    assert_eq!(acc.token_release(usdn(), 1), Err(Fault::TokenNotFound));
    acc.deposit_tokens(usdn(), 10).unwrap();
    assert_eq!(acc.lock_tokens(usdn(), 11), Err(Fault::InsufficientTokenBalance));
    assert_eq!(acc.lock_tokens(usdn(), 6), Ok(()));
    assert_eq!(acc.get_token_balance(usdn()), Ok(4));
    assert_eq!(acc.locked_tokens.get(&"usdn.testnet".to_string()), Some(&6));
    assert_eq!(acc.unlock_tokens(usdn(), 7), Err(Fault::UnlockExceedsLockedTokens));
    assert_eq!(acc.unlock_tokens(usdn(), 2), Ok(()));
    assert_eq!(acc.get_token_balance(usdn()), Ok(6));
    assert_eq!(acc.locked_tokens.get(&"usdn.testnet".to_string()), Some(&4));
    assert_eq!(acc.token_release(usdn(), 5), Err(Fault::ReleaseExceedsLocked));
    assert_eq!(acc.token_release(usdn(), 4), Ok(()));
    assert_eq!(acc.get_token_balance(usdn()), Ok(6));
    assert_eq!(acc.locked_tokens.get(&"usdn.testnet".to_string()), Some(&0));
    assert_eq!((acc.balance, acc.locked), (0, 0));
}

#[test]
fn likes_and_dislikes() {
    let mut acc = Account::new(alice(), 0);
    acc.add_like().unwrap();
    acc.add_like().unwrap();
    acc.remove_like().unwrap();
    acc.add_dislike().unwrap();
    acc.remove_dislike().unwrap();
    acc.remove_dislike().unwrap();
    assert_eq!(acc.get_likes(), 1);
    assert_eq!(acc.get_dislikes(), -1);
    acc.likes = i32::MAX;
    assert_eq!(acc.add_like(), Err(Fault::Overflow));
    acc.dislikes = i32::MIN;
    assert_eq!(acc.remove_dislike(), Err(Fault::Overflow));
    assert_eq!((acc.likes, acc.dislikes), (i32::MAX, i32::MIN));
}

#[test]
fn balance_in_words() {
    let mut acc = Account::new(alice(), 0);
    assert_eq!(acc.get_balance_as_string(), "0 yoctoNears, approximately 0 Near");
    acc.deposit(5 * ONE_NEAR + 7).unwrap();
    assert_eq!(
        acc.get_balance_as_string(),
        "5000000000000000000000007 yoctoNears, approximately 5 Near"
    );
    assert_eq!(acc.get_balance_as_string(), format!("{:?} yoctoNears, approximately {:?} Near", acc.balance, acc.balance / ONE_NEAR));
}

#[test]
fn decimal_text() {
    assert_eq!(to_decimal(0), "0");
    assert_eq!(to_decimal(9), "9");
    assert_eq!(to_decimal(10), "10");
    assert_eq!(to_decimal(1234567890), "1234567890");
    assert_eq!(to_decimal(u128::MAX), u128::MAX.to_string());
}

#[test]
fn fee_is_rate_in_millionths_rounded_down() {
    assert_eq!(RATE_SCALE, 1_000_000);
    assert_eq!(compute_trade_cost(50_000, 2 * ONE_NEAR), Some(ONE_NEAR / 10));
    assert_eq!(compute_trade_cost(50_000, 19), Some(0));
    assert_eq!(compute_trade_cost(50_000, 20), Some(1));
    assert_eq!(compute_trade_cost(50_000, 39), Some(1));
    assert_eq!(compute_trade_cost(0, u128::MAX), Some(0));
    assert_eq!(compute_trade_cost(1_000_000, u128::MAX), Some(u128::MAX));
    assert_eq!(compute_trade_cost(1_000_001, u128::MAX), None);
    assert_eq!(compute_trade_cost(333_333, 1_000_003), Some(333_333));
    assert_eq!(compute_escrow(50_000, 2 * ONE_NEAR), Some((ONE_NEAR / 10, 21 * ONE_NEAR / 10)));
    assert_eq!(compute_escrow(1, u128::MAX), None);
    assert_eq!(compute_escrow(4_000_000, u128::MAX / 2), None);
}

#[test]
fn fault_texts() {
    assert_eq!(Fault::AlreadyReleased.message(), "Amount already released");
    assert_eq!(Fault::AmountBelowMinimum.message(), "Amount must be greater than 1 Near");
    assert_eq!(Fault::DepositTooSmall.message(), "Deposit must be greater than 1 Near");
    assert_eq!(Fault::InsufficientBalance.message(), "Insufficient balance to make a withdrawal");
    assert_eq!(Fault::NotAccountOwner.message(), "Only the owner can withdraw");
    assert_eq!(Fault::TokenNotFound.message(), "Token not found");
    assert_eq!(Fault::NotAllowed.message(), ERR9_NOT_ALLOWED);
    assert_eq!(
        Fault::ReleaseExceedsLocked.message(),
        "Amount to release is greater than locked balance, can't proceed with transaction"
    );
    assert_eq!(Fault::TransactionFailed.message(), "Transaction failed");
}
