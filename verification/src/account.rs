//! The ledger entry of one account: spendable and locked funds in the
//! native currency and in each token, and the account's reputation.
use crate::account_id::AccountId;
use crate::constants::ONE_NEAR;
use crate::errors::Fault;
use crate::registry::{group_views, Registry};
use crate::text::{decimal, to_decimal};
use crate::trade::TradeView;
use crate::transfer::TransferView;
use crate::{done, Context, ContextView, Contract, ContractView, TokenMetadata, TokenMetadataView};
use vstd::prelude::*;
use vstd::string::StringExecFns;

verus! {

/// A payout as a mathematical value.
pub struct PayoutView {
    pub to: Seq<char>,
    pub amount: u128,
}

/// A transfer of native funds that leaves the ledger: `amount` is owed to
/// `to` by whoever runs the ledger.
#[derive(Debug)]
pub struct Payout {
    pub to: AccountId,
    pub amount: u128,
}

impl View for Payout {
    type V = PayoutView;

    open spec fn view(&self) -> PayoutView {
        PayoutView {
            to: self.to@,
            amount: self.amount,
        }
    }
}

impl Clone for Payout {
    fn clone(&self) -> (r: Self)
        ensures
            r@ == self@,
    {
        Payout {
            to: self.to.clone(),
            amount: self.amount,
        }
    }
}

/// Public account information as a mathematical value.
pub struct PubAccountInfoView {
    pub id: Seq<char>,
    pub likes: i32,
    pub trades: usize,
    pub transfers: usize,
    pub offers: usize,
    pub dislikes: i32,
    pub blocked_by: i32,
    pub created_on: u64,
}

/// What anyone may know of an account.
#[derive(Debug)]
pub struct PubAccountInfo {
    pub id: AccountId,
    pub likes: i32,
    pub trades: usize,
    pub transfers: usize,
    pub offers: usize,
    pub dislikes: i32,
    pub blocked_by: i32,
    pub created_on: u64,
}

impl View for PubAccountInfo {
    type V = PubAccountInfoView;

    open spec fn view(&self) -> PubAccountInfoView {
        PubAccountInfoView {
            id: self.id@,
            likes: self.likes,
            trades: self.trades,
            transfers: self.transfers,
            offers: self.offers,
            dislikes: self.dislikes,
            blocked_by: self.blocked_by,
            created_on: self.created_on,
        }
    }
}

impl Clone for PubAccountInfo {
    fn clone(&self) -> (r: Self)
        ensures
            r@ == self@,
    {
        PubAccountInfo {
            id: self.id.clone(),
            likes: self.likes,
            trades: self.trades,
            transfers: self.transfers,
            offers: self.offers,
            dislikes: self.dislikes,
            blocked_by: self.blocked_by,
            created_on: self.created_on,
        }
    }
}

/// A token balance as a mathematical value.
pub struct TokenBalanceInfoView {
    pub token: Option<TokenMetadataView>,
    pub balance: u128,
}

/// A balance of one token, with what is known of the token.
#[derive(Debug)]
pub struct TokenBalanceInfo {
    pub token: Option<TokenMetadata>,
    pub balance: u128,
}

impl View for TokenBalanceInfo {
    type V = TokenBalanceInfoView;

    open spec fn view(&self) -> TokenBalanceInfoView {
        TokenBalanceInfoView {
            token: match self.token {
                Some(x) => Some(x@),
                None => None,
            },
            balance: self.balance,
        }
    }
}

impl Clone for TokenBalanceInfo {
    fn clone(&self) -> (r: Self)
        ensures
            r@ == self@,
    {
        TokenBalanceInfo {
            token: match &self.token {
                Some(x) => Some(x.clone()),
                None => None,
            },
            balance: self.balance,
        }
    }
}

/// Account information as a mathematical value.
pub struct AccountInfoView {
    pub id: Seq<char>,
    pub balance: u128,
    pub locked: u128,
    pub likes: i32,
    pub dislikes: i32,
    pub blocked_by: i32,
    pub created_on: u64,
    pub tokens: Seq<TokenBalanceInfoView>,
    pub locked_tokens: Seq<TokenBalanceInfoView>,
}

/// All that an entry holds, with what is known of its tokens.
#[derive(Debug)]
pub struct AccountInfo {
    pub id: AccountId,
    pub balance: u128,
    pub locked: u128,
    pub likes: i32,
    pub dislikes: i32,
    pub blocked_by: i32,
    pub created_on: u64,
    pub tokens: Vec<TokenBalanceInfo>,
    pub locked_tokens: Vec<TokenBalanceInfo>,
}

impl View for AccountInfo {
    type V = AccountInfoView;

    open spec fn view(&self) -> AccountInfoView {
        AccountInfoView {
            id: self.id@,
            balance: self.balance,
            locked: self.locked,
            likes: self.likes,
            dislikes: self.dislikes,
            blocked_by: self.blocked_by,
            created_on: self.created_on,
            tokens: self.tokens@.map_values(|x: TokenBalanceInfo| x@),
            locked_tokens: self.locked_tokens@.map_values(|x: TokenBalanceInfo| x@),
        }
    }
}

/// A ledger entry as a mathematical value.
pub struct AccountView {
    pub id: Seq<char>,
    pub balance: u128,
    pub locked: u128,
    pub likes: i32,
    pub dislikes: i32,
    pub tokens: Map<Seq<char>, u128>,
    pub locked_tokens: Map<Seq<char>, u128>,
    pub blocked_by: i32,
    pub created_on: u64,
}

/// The ledger entry of one account.
#[derive(Debug)]
pub struct Account {
    /// The account that owns the entry.
    pub id: AccountId,
    /// Spendable native funds.
    pub balance: u128,
    /// Native funds set aside for trades in progress.
    pub locked: u128,
    pub likes: i32,
    pub dislikes: i32,
    /// Spendable funds of each token the entry has held.
    pub tokens: Registry<u128>,
    /// Funds of each token set aside for trades in progress.
    pub locked_tokens: Registry<u128>,
    pub blocked_by: i32,
    pub created_on: u64,
}

impl View for Account {
    type V = AccountView;

    open spec fn view(&self) -> AccountView {
        AccountView {
            id: self.id@,
            balance: self.balance,
            locked: self.locked,
            likes: self.likes,
            dislikes: self.dislikes,
            tokens: self.tokens@.map,
            locked_tokens: self.locked_tokens@.map,
            blocked_by: self.blocked_by,
            created_on: self.created_on,
        }
    }
}

/// What a token map holds under `token`, or nothing where it has no entry.
pub open spec fn held(m: Map<Seq<char>, u128>, token: Seq<char>) -> u128 {
    if m.contains_key(token) {
        m[token]
    } else {
        0
    }
}

impl AccountView {
    /// The entry of a new account.
    pub open spec fn fresh(id: Seq<char>, created_on: u64) -> AccountView {
        AccountView {
            id,
            balance: 0,
            locked: 0,
            likes: 0,
            dislikes: 0,
            tokens: Map::empty(),
            locked_tokens: Map::empty(),
            blocked_by: 0,
            created_on,
        }
    }

    /// All native funds of the entry, spendable and locked.
    pub open spec fn total(self) -> int {
        self.balance + self.locked
    }

    /// All funds the entry has of `token`, spendable and locked.
    pub open spec fn token_total(self, token: Seq<char>) -> int {
        held(self.tokens, token) + held(self.locked_tokens, token)
    }

    /// The amount, which must be at least one unit, is added to the
    /// spendable balance.
    pub open spec fn deposit(self, amount: u128) -> Result<AccountView, Fault> {
        if amount < ONE_NEAR {
            Err(Fault::AmountBelowMinimum)
        } else if self.balance + amount > u128::MAX {
            Err(Fault::Overflow)
        } else {
            Ok(AccountView { balance: (self.balance + amount) as u128, ..self })
        }
    }

    /// The owner of the entry takes the amount out of the spendable
    /// balance, which must cover it.
    pub open spec fn withdraw(self, caller: Seq<char>, amount: u128) -> Result<AccountView, Fault> {
        if self.balance < amount {
            Err(Fault::InsufficientBalance)
        } else if caller != self.id {
            Err(Fault::NotAccountOwner)
        } else {
            Ok(AccountView { balance: (self.balance - amount) as u128, ..self })
        }
    }

    /// The amount moves from the spendable balance, which must cover it,
    /// to the locked balance.
    pub open spec fn lock(self, amount: u128) -> Result<AccountView, Fault> {
        if self.balance < amount {
            Err(Fault::LockExceedsBalance)
        } else if self.locked + amount > u128::MAX {
            Err(Fault::Overflow)
        } else {
            Ok(
                AccountView {
                    balance: (self.balance - amount) as u128,
                    locked: (self.locked + amount) as u128,
                    ..self
                },
            )
        }
    }

    /// The amount moves from the locked balance, which must cover it,
    /// back to the spendable balance.
    pub open spec fn unlock(self, amount: u128) -> Result<AccountView, Fault> {
        if self.locked < amount {
            Err(Fault::UnlockExceedsLocked)
        } else if self.balance + amount > u128::MAX {
            Err(Fault::Overflow)
        } else {
            Ok(
                AccountView {
                    balance: (self.balance + amount) as u128,
                    locked: (self.locked - amount) as u128,
                    ..self
                },
            )
        }
    }

    /// Unlock, then withdraw: the amount leaves the locked funds and the
    /// entry, and the spendable balance is as before.
    pub open spec fn release(self, caller: Seq<char>, amount: u128) -> Result<AccountView, Fault> {
        if self.locked < amount {
            Err(Fault::ReleaseExceedsLocked)
        } else {
            match self.unlock(amount) {
                Ok(unlocked) => unlocked.withdraw(caller, amount),
                Err(e) => Err(e),
            }
        }
    }

    /// The amount is added to what the entry holds of the token; an
    /// entry that has never held the token holds it from now on.
    pub open spec fn deposit_tokens(self, token: Seq<char>, amount: u128) -> Result<
        AccountView,
        Fault,
    > {
        if held(self.tokens, token) + amount > u128::MAX {
            Err(Fault::Overflow)
        } else {
            Ok(
                AccountView {
                    tokens: self.tokens.insert(token, (held(self.tokens, token) + amount) as u128),
                    ..self
                },
            )
        }
    }

    /// A withdrawal of tokens does nothing where the entry has never held
    /// the token or holds less of it than `amount`.
    pub open spec fn withdraw_tokens(self, token: Seq<char>, amount: u128) -> AccountView {
        if self.tokens.contains_key(token) && self.tokens[token] >= amount {
            AccountView {
                tokens: self.tokens.insert(token, (self.tokens[token] - amount) as u128),
                ..self
            }
        } else {
            self
        }
    }

    /// The amount of the token moves from the spendable to the locked
    /// token balance. The entry must have held the token before and must
    /// hold the amount.
    pub open spec fn lock_tokens(self, token: Seq<char>, amount: u128) -> Result<
        AccountView,
        Fault,
    > {
        if !self.tokens.contains_key(token) {
            Err(Fault::TokenNotFound)
        } else if self.tokens[token] < amount {
            Err(Fault::InsufficientTokenBalance)
        } else if held(self.locked_tokens, token) + amount > u128::MAX {
            Err(Fault::Overflow)
        } else {
            Ok(
                AccountView {
                    tokens: self.tokens.insert(token, (self.tokens[token] - amount) as u128),
                    locked_tokens: self.locked_tokens.insert(
                        token,
                        (held(self.locked_tokens, token) + amount) as u128,
                    ),
                    ..self
                },
            )
        }
    }

    /// The amount of the token moves from the locked back to the
    /// spendable token balance. The entry must have locked the token
    /// before and must have locked the amount.
    pub open spec fn unlock_tokens(self, token: Seq<char>, amount: u128) -> Result<
        AccountView,
        Fault,
    > {
        if !self.locked_tokens.contains_key(token) {
            Err(Fault::TokenNotFound)
        } else if self.locked_tokens[token] < amount {
            Err(Fault::UnlockExceedsLockedTokens)
        } else if !self.tokens.contains_key(token) {
            Err(Fault::TokenNotFound)
        } else if self.tokens[token] + amount > u128::MAX {
            Err(Fault::Overflow)
        } else {
            Ok(
                AccountView {
                    tokens: self.tokens.insert(token, (self.tokens[token] + amount) as u128),
                    locked_tokens: self.locked_tokens.insert(
                        token,
                        (self.locked_tokens[token] - amount) as u128,
                    ),
                    ..self
                },
            )
        }
    }

    /// Unlock the tokens, then withdraw them.
    pub open spec fn token_release(self, token: Seq<char>, amount: u128) -> Result<
        AccountView,
        Fault,
    > {
        if !self.locked_tokens.contains_key(token) {
            Err(Fault::TokenNotFound)
        } else if self.locked_tokens[token] < amount {
            Err(Fault::ReleaseExceedsLocked)
        } else {
            match self.unlock_tokens(token, amount) {
                Ok(unlocked) => Ok(unlocked.withdraw_tokens(token, amount)),
                Err(e) => Err(e),
            }
        }
    }

    /// What the entry holds of the token, unless it has never held it.
    pub open spec fn get_token_balance(self, token: Seq<char>) -> Result<u128, Fault> {
        if self.tokens.contains_key(token) {
            Ok(self.tokens[token])
        } else {
            Err(Fault::TokenNotFound)
        }
    }

    /// The spendable balance in words.
    pub open spec fn balance_text(self) -> Seq<char> {
        decimal(self.balance as nat) + " yoctoNears, approximately "@ + decimal(
            (self.balance / ONE_NEAR) as nat,
        ) + " Near"@
    }

    /// One like more.
    pub open spec fn add_like(self) -> Result<AccountView, Fault> {
        if self.likes == i32::MAX {
            Err(Fault::Overflow)
        } else {
            Ok(AccountView { likes: (self.likes + 1) as i32, ..self })
        }
    }

    /// One like less.
    pub open spec fn remove_like(self) -> Result<AccountView, Fault> {
        if self.likes == i32::MIN {
            Err(Fault::Overflow)
        } else {
            Ok(AccountView { likes: (self.likes - 1) as i32, ..self })
        }
    }

    /// One dislike more.
    pub open spec fn add_dislike(self) -> Result<AccountView, Fault> {
        if self.dislikes == i32::MAX {
            Err(Fault::Overflow)
        } else {
            Ok(AccountView { dislikes: (self.dislikes + 1) as i32, ..self })
        }
    }

    /// One dislike less.
    pub open spec fn remove_dislike(self) -> Result<AccountView, Fault> {
        if self.dislikes == i32::MIN {
            Err(Fault::Overflow)
        } else {
            Ok(AccountView { dislikes: (self.dislikes - 1) as i32, ..self })
        }
    }
}

/// One operation on the native funds of an entry, with its arguments.
pub enum LedgerOp {
    Deposit { amount: u128 },
    Withdraw { caller: Seq<char>, amount: u128 },
    Lock { amount: u128 },
    Unlock { amount: u128 },
    Release { caller: Seq<char>, amount: u128 },
}

impl AccountView {
    /// What `op` makes of the entry, or the fault it ends in.
    pub open spec fn attempt(self, op: LedgerOp) -> Result<AccountView, Fault> {
        match op {
            LedgerOp::Deposit { amount } => self.deposit(amount),
            LedgerOp::Withdraw { caller, amount } => self.withdraw(caller, amount),
            LedgerOp::Lock { amount } => self.lock(amount),
            LedgerOp::Unlock { amount } => self.unlock(amount),
            LedgerOp::Release { caller, amount } => self.release(caller, amount),
        }
    }

    /// The entry after `op`: a faulted operation leaves it as it was.
    pub open spec fn step(self, op: LedgerOp) -> AccountView {
        match self.attempt(op) {
            Ok(next) => next,
            Err(_) => self,
        }
    }

    /// The entry after the operations of `ops`, first to last.
    pub open spec fn run(self, ops: Seq<LedgerOp>) -> AccountView
        decreases ops.len(),
    {
        if ops.len() == 0 {
            self
        } else {
            self.run(ops.drop_last()).step(ops.last())
        }
    }

    /// What `op` pays into the entry: the amount of a deposit that
    /// succeeds, and nothing otherwise.
    pub open spec fn paid_in_by(self, op: LedgerOp) -> int {
        match op {
            LedgerOp::Deposit { amount } if self.attempt(op) is Ok => amount as int,
            _ => 0,
        }
    }

    /// What `op` pays out of the entry: the amount of a withdrawal or a
    /// release that succeeds, and nothing otherwise.
    pub open spec fn paid_out_by(self, op: LedgerOp) -> int {
        match op {
            LedgerOp::Withdraw { amount, .. } if self.attempt(op) is Ok => amount as int,
            LedgerOp::Release { amount, .. } if self.attempt(op) is Ok => amount as int,
            _ => 0,
        }
    }

    /// The sum of all deposits made by `ops`.
    pub open spec fn paid_in(self, ops: Seq<LedgerOp>) -> int
        decreases ops.len(),
    {
        if ops.len() == 0 {
            0
        } else {
            self.paid_in(ops.drop_last()) + self.run(ops.drop_last()).paid_in_by(ops.last())
        }
    }

    /// The sum of all withdrawals and releases made by `ops`.
    pub open spec fn paid_out(self, ops: Seq<LedgerOp>) -> int
        decreases ops.len(),
    {
        if ops.len() == 0 {
            0
        } else {
            self.paid_out(ops.drop_last()) + self.run(ops.drop_last()).paid_out_by(ops.last())
        }
    }
}

/// Conservation of native funds. After any sequence of deposits,
/// withdrawals, locks, unlocks and releases on one entry, the spendable and
/// the locked balance together are what they were at the start, plus all
/// that was deposited, minus all that was withdrawn or released. Since it
/// holds of every sequence, it holds after every prefix of one.
pub proof fn conservation(start: AccountView, ops: Seq<LedgerOp>)
    ensures
        start.run(ops).total() == start.total() + start.paid_in(ops) - start.paid_out(ops),
    decreases ops.len(),
{
    if ops.len() > 0 {
        conservation(start, ops.drop_last());
    }
}

/// Conservation for an entry that starts empty: its funds are the
/// deposits minus the withdrawals and releases.
pub proof fn conservation_from_new(id: Seq<char>, created_on: u64, ops: Seq<LedgerOp>)
    ensures
        AccountView::fresh(id, created_on).run(ops).total() == AccountView::fresh(
            id,
            created_on,
        ).paid_in(ops) - AccountView::fresh(id, created_on).paid_out(ops),
{
    conservation(AccountView::fresh(id, created_on), ops);
}

/// One operation on what an entry holds of one token, with its amount.
pub enum TokenOp {
    Deposit { amount: u128 },
    Withdraw { amount: u128 },
    Lock { amount: u128 },
    Unlock { amount: u128 },
    Release { amount: u128 },
}

impl AccountView {
    /// The entry after `op` on `token`: a faulted operation, and a
    /// withdrawal that the entry cannot meet, leave it as it was.
    pub open spec fn token_step(self, token: Seq<char>, op: TokenOp) -> AccountView {
        match op {
            TokenOp::Deposit { amount } => match self.deposit_tokens(token, amount) {
                Ok(next) => next,
                Err(_) => self,
            },
            TokenOp::Withdraw { amount } => self.withdraw_tokens(token, amount),
            TokenOp::Lock { amount } => match self.lock_tokens(token, amount) {
                Ok(next) => next,
                Err(_) => self,
            },
            TokenOp::Unlock { amount } => match self.unlock_tokens(token, amount) {
                Ok(next) => next,
                Err(_) => self,
            },
            TokenOp::Release { amount } => match self.token_release(token, amount) {
                Ok(next) => next,
                Err(_) => self,
            },
        }
    }

    /// The entry after the operations of `ops` on `token`, first to last.
    pub open spec fn token_run(self, token: Seq<char>, ops: Seq<TokenOp>) -> AccountView
        decreases ops.len(),
    {
        if ops.len() == 0 {
            self
        } else {
            self.token_run(token, ops.drop_last()).token_step(token, ops.last())
        }
    }

    /// What `op` adds to what the entry has of `token`: the amount of a
    /// deposit that succeeds, less the amount of a withdrawal or a release
    /// that takes effect.
    pub open spec fn token_flow_by(self, token: Seq<char>, op: TokenOp) -> int {
        match op {
            TokenOp::Deposit { amount } if self.deposit_tokens(token, amount) is Ok => amount as int,
            TokenOp::Withdraw { amount } if self.withdraw_tokens(token, amount) != self => -(amount
                as int),
            TokenOp::Release { amount } if self.token_release(token, amount) is Ok => -(amount
                as int),
            _ => 0,
        }
    }

    /// The sum of what the operations of `ops` add to what the entry has
    /// of `token`.
    pub open spec fn token_flow(self, token: Seq<char>, ops: Seq<TokenOp>) -> int
        decreases ops.len(),
    {
        if ops.len() == 0 {
            0
        } else {
            self.token_flow(token, ops.drop_last()) + self.token_run(
                token,
                ops.drop_last(),
            ).token_flow_by(token, ops.last())
        }
    }
}

/// Conservation of each token. After any sequence of operations on one
/// token, the spendable and the locked balance of that token together are
/// what they were at the start, plus all that was deposited, minus all
/// that was withdrawn or released. What the entry has of any other token,
/// and its native funds, are as they were.
pub proof fn token_conservation(
    start: AccountView,
    token: Seq<char>,
    other: Seq<char>,
    ops: Seq<TokenOp>,
)
    requires
        other != token,
    ensures
        start.token_run(token, ops).token_total(token) == start.token_total(token)
            + start.token_flow(token, ops),
        start.token_run(token, ops).token_total(other) == start.token_total(other),
        start.token_run(token, ops).balance == start.balance,
        start.token_run(token, ops).locked == start.locked,
    decreases ops.len(),
{
    if ops.len() > 0 {
        token_conservation(start, token, other, ops.drop_last());
    }
}

/// A lock of more than the spendable balance fails, whatever else holds
/// of the entry.
pub proof fn lock_sufficiency(a: AccountView, amount: u128)
    requires
        amount > a.balance,
    ensures
        a.lock(amount) is Err,
        a.step(LedgerOp::Lock { amount }) == a,
{
}

/// An operation on an entry did what its model says: on success the entry
/// is the model's new value, on a fault the fault is the model's and the
/// entry is untouched.
pub open spec fn applied(
    r: Result<(), Fault>,
    before: Account,
    after: Account,
    model: Result<AccountView, Fault>,
) -> bool {
    match model {
        Ok(v) => r is Ok && after@ == v,
        Err(e) => r == Err::<(), Fault>(e) && after == before,
    }
}

impl Clone for Account {
    fn clone(&self) -> (r: Self)
        ensures
            r@ == self@,
    {
        Account {
            id: self.id.clone(),
            balance: self.balance,
            locked: self.locked,
            likes: self.likes,
            dislikes: self.dislikes,
            tokens: self.tokens.clone(),
            locked_tokens: self.locked_tokens.clone(),
            blocked_by: self.blocked_by,
            created_on: self.created_on,
        }
    }
}

impl Account {
    /// The entry of a new account, created at time `created_on`: it holds
    /// nothing and has no reputation.
    pub fn new(id: AccountId, created_on: u64) -> (r: Account)
        ensures
            r@ == AccountView::fresh(id@, created_on),
    {
        Account {
            id,
            balance: 0,
            locked: 0,
            likes: 0,
            dislikes: 0,
            tokens: Registry::new(),
            locked_tokens: Registry::new(),
            blocked_by: 0,
            created_on,
        }
    }

    /// Adds `amount` to the spendable balance. The amount must be at
    /// least one unit of the native currency.
    pub fn deposit(&mut self, amount: u128) -> (r: Result<(), Fault>)
        ensures
            applied(r, *old(self), *final(self), old(self)@.deposit(amount)),
            r is Ok ==> final(self)@.total() == old(self)@.total() + amount,
    {
        if amount < ONE_NEAR {
            return Err(Fault::AmountBelowMinimum);
        }
        if amount > u128::MAX - self.balance {
            return Err(Fault::Overflow);
        }
        self.balance = self.balance + amount;
        Ok(())
    }

    /// Takes `amount` out of the spendable balance. Only the owner of the
    /// entry may withdraw, and no more than the balance.
    pub fn withdraw(&mut self, caller: &AccountId, amount: u128) -> (r: Result<(), Fault>)
        ensures
            applied(r, *old(self), *final(self), old(self)@.withdraw(caller@, amount)),
            r is Ok ==> final(self)@.total() == old(self)@.total() - amount,
    {
        if self.balance < amount {
            return Err(Fault::InsufficientBalance);
        }
        if *caller != self.id {
            return Err(Fault::NotAccountOwner);
        }
        self.balance = self.balance - amount;
        Ok(())
    }

    /// Adds `amount` of the token to the spendable token balance.
    pub fn deposit_tokens(&mut self, token_id: AccountId, amount: u128) -> (r: Result<(), Fault>)
        ensures
            applied(r, *old(self), *final(self), old(self)@.deposit_tokens(token_id@, amount)),
    {
        let current = match self.tokens.get(token_id.as_string()) {
            Some(v) => *v,
            None => 0,
        };
        if amount > u128::MAX - current {
            return Err(Fault::Overflow);
        }
        self.tokens.insert(token_id.to_string(), current + amount);
        Ok(())
    }

    /// Takes `amount` of the token out of the spendable token balance.
    /// Where the entry has never held the token, or holds less than
    /// `amount`, nothing happens.
    pub fn withdraw_tokens(&mut self, token_id: AccountId, amount: u128)
        ensures
            final(self)@ == old(self)@.withdraw_tokens(token_id@, amount),
    {
        let current = match self.tokens.get(token_id.as_string()) {
            Some(v) => *v,
            None => {
                return ;
            },
        };
        if current < amount {
            return ;
        }
        self.tokens.insert(token_id.to_string(), current - amount);
    }

    /// Moves `amount` from the spendable balance to the locked balance.
    /// A lock of more than the balance fails and changes nothing.
    pub fn lock(&mut self, amount: u128) -> (r: Result<(), Fault>)
        ensures
            applied(r, *old(self), *final(self), old(self)@.lock(amount)),
            amount > old(self).balance ==> r is Err && *final(self) == *old(self),
            final(self)@.total() == old(self)@.total(),
    {
        if self.balance < amount {
            return Err(Fault::LockExceedsBalance);
        }
        if amount > u128::MAX - self.locked {
            return Err(Fault::Overflow);
        }
        self.balance = self.balance - amount;
        self.locked = self.locked + amount;
        Ok(())
    }

    /// Moves `amount` from the locked balance back to the spendable one.
    pub fn unlock(&mut self, amount: u128) -> (r: Result<(), Fault>)
        ensures
            applied(r, *old(self), *final(self), old(self)@.unlock(amount)),
            amount > old(self).locked ==> r is Err && *final(self) == *old(self),
            final(self)@.total() == old(self)@.total(),
    {
        if self.locked < amount {
            return Err(Fault::UnlockExceedsLocked);
        }
        if amount > u128::MAX - self.balance {
            return Err(Fault::Overflow);
        }
        self.locked = self.locked - amount;
        self.balance = self.balance + amount;
        Ok(())
    }

    /// Moves `amount` of the token from the spendable to the locked token
    /// balance.
    pub fn lock_tokens(&mut self, token_id: AccountId, amount: u128) -> (r: Result<(), Fault>)
        ensures
            applied(r, *old(self), *final(self), old(self)@.lock_tokens(token_id@, amount)),
            r is Ok ==> final(self)@.token_total(token_id@) == old(self)@.token_total(token_id@),
    {
        let spendable = match self.tokens.get(token_id.as_string()) {
            Some(v) => *v,
            None => {
                return Err(Fault::TokenNotFound);
            },
        };
        if spendable < amount {
            return Err(Fault::InsufficientTokenBalance);
        }
        let locked = match self.locked_tokens.get(token_id.as_string()) {
            Some(v) => *v,
            None => 0,
        };
        if amount > u128::MAX - locked {
            return Err(Fault::Overflow);
        }
        self.locked_tokens.insert(token_id.to_string(), locked + amount);
        self.tokens.insert(token_id.to_string(), spendable - amount);
        Ok(())
    }

    /// Moves `amount` of the token from the locked back to the spendable
    /// token balance.
    pub fn unlock_tokens(&mut self, token_id: AccountId, amount: u128) -> (r: Result<(), Fault>)
        ensures
            applied(r, *old(self), *final(self), old(self)@.unlock_tokens(token_id@, amount)),
            r is Ok ==> final(self)@.token_total(token_id@) == old(self)@.token_total(token_id@),
    {
        let locked = match self.locked_tokens.get(token_id.as_string()) {
            Some(v) => *v,
            None => {
                return Err(Fault::TokenNotFound);
            },
        };
        if locked < amount {
            return Err(Fault::UnlockExceedsLockedTokens);
        }
        let spendable = match self.tokens.get(token_id.as_string()) {
            Some(v) => *v,
            None => {
                return Err(Fault::TokenNotFound);
            },
        };
        if amount > u128::MAX - spendable {
            return Err(Fault::Overflow);
        }
        self.locked_tokens.insert(token_id.to_string(), locked - amount);
        self.tokens.insert(token_id.to_string(), spendable + amount);
        Ok(())
    }

    /// The spendable balance of the token. An entry that has never held
    /// the token has no balance of it, not a balance of zero.
    pub fn get_token_balance(&self, token_id: AccountId) -> (r: Result<u128, Fault>)
        ensures
            r == self@.get_token_balance(token_id@),
    {
        match self.tokens.get(token_id.as_string()) {
            Some(v) => Ok(*v),
            None => Err(Fault::TokenNotFound),
        }
    }

    /// Releases `amount` of the locked funds to `to`: the amount is
    /// unlocked and withdrawn, and the payout that is returned is owed.
    pub fn release(&mut self, caller: &AccountId, amount: u128, to: AccountId) -> (r: Result<
        Payout,
        Fault,
    >)
        ensures
            match old(self)@.release(caller@, amount) {
                Ok(v) => r matches Ok(p) && p.to@ == to@ && p.amount == amount && final(self)@ == v,
                Err(e) => r matches Err(f) && f == e && *final(self) == *old(self),
            },
            r is Ok ==> final(self).balance == old(self).balance,
            r is Ok ==> final(self).locked == old(self).locked - amount,
    {
        if self.locked < amount {
            return Err(Fault::ReleaseExceedsLocked);
        }
        if amount > u128::MAX - self.balance {
            return Err(Fault::Overflow);
        }
        if *caller != self.id {
            return Err(Fault::NotAccountOwner);
        }
        self.locked = self.locked - amount;
        Ok(Payout { to, amount })
    }

    /// Releases `amount` of the locked tokens: they are unlocked and
    /// withdrawn from the entry.
    pub fn token_release(&mut self, token_id: AccountId, amount: u128) -> (r: Result<(), Fault>)
        ensures
            applied(r, *old(self), *final(self), old(self)@.token_release(token_id@, amount)),
    {
        let locked = match self.locked_tokens.get(token_id.as_string()) {
            Some(v) => *v,
            None => {
                return Err(Fault::TokenNotFound);
            },
        };
        if locked < amount {
            return Err(Fault::ReleaseExceedsLocked);
        }
        let token = token_id.clone();
        match self.unlock_tokens(token_id, amount) {
            Ok(()) => {
                self.withdraw_tokens(token, amount);
                Ok(())
            },
            Err(e) => Err(e),
        }
    }

    /// Adds a like.
    pub fn add_like(&mut self) -> (r: Result<(), Fault>)
        ensures
            applied(r, *old(self), *final(self), old(self)@.add_like()),
    {
        if self.likes == i32::MAX {
            return Err(Fault::Overflow);
        }
        self.likes = self.likes + 1;
        Ok(())
    }

    /// Takes a like back.
    pub fn remove_like(&mut self) -> (r: Result<(), Fault>)
        ensures
            applied(r, *old(self), *final(self), old(self)@.remove_like()),
    {
        if self.likes == i32::MIN {
            return Err(Fault::Overflow);
        }
        self.likes = self.likes - 1;
        Ok(())
    }

    /// Adds a dislike.
    pub fn add_dislike(&mut self) -> (r: Result<(), Fault>)
        ensures
            applied(r, *old(self), *final(self), old(self)@.add_dislike()),
    {
        if self.dislikes == i32::MAX {
            return Err(Fault::Overflow);
        }
        self.dislikes = self.dislikes + 1;
        Ok(())
    }

    /// Takes a dislike back.
    pub fn remove_dislike(&mut self) -> (r: Result<(), Fault>)
        ensures
            applied(r, *old(self), *final(self), old(self)@.remove_dislike()),
    {
        if self.dislikes == i32::MIN {
            return Err(Fault::Overflow);
        }
        self.dislikes = self.dislikes - 1;
        Ok(())
    }

    /// The spendable balance in words: in the smallest denomination, and
    /// in whole units, rounded down.
    pub fn get_balance_as_string(&self) -> (s: String)
        ensures
            s@ == self@.balance_text(),
    {
        let mut s = to_decimal(self.balance);
        s.append(" yoctoNears, approximately ");
        let units = to_decimal(self.balance / ONE_NEAR);
        s.append(units.as_str());
        s.append(" Near");
        s
    }

    /// The number of likes.
    pub fn get_likes(&self) -> (n: i32)
        ensures
            n == self.likes,
    {
        self.likes
    }

    /// The number of dislikes.
    pub fn get_dislikes(&self) -> (n: i32)
        ensures
            n == self.dislikes,
    {
        self.dislikes
    }
}

/// A count as a machine number: the largest one where the count does not
/// fit.
pub open spec fn capped(n: nat) -> usize {
    if n <= usize::MAX {
        n as usize
    } else {
        usize::MAX
    }
}

impl ContractView {
    /// Registers `account` with an empty entry, unless it is registered
    /// already.
    pub open spec fn register_new_account(self, ctx: ContextView, account: Seq<char>) -> (
        Seq<char>,
        ContractView,
    ) {
        if self.accounts.contains_key(account) {
            ("Account already registered"@, self)
        } else {
            (
                "Account registered successfully"@,
                ContractView {
                    accounts: self.accounts.insert(
                        account,
                        AccountView::fresh(account, ctx.block_timestamp),
                    ),
                    ..self
                },
            )
        }
    }

    /// Credits the funds that came with the call to the entry of
    /// `account` and logs the transfer. The funds must exceed one unit; a
    /// deposit for an account that is not registered does nothing.
    pub open spec fn contract_deposit(self, ctx: ContextView, account: Seq<char>) -> Result<
        ContractView,
        Fault,
    > {
        if ctx.attached_deposit <= ONE_NEAR {
            Err(Fault::DepositTooSmall)
        } else if !self.accounts.contains_key(account) {
            Ok(self)
        } else {
            match self.accounts[account].deposit(ctx.attached_deposit) {
                Err(e) => Err(e),
                Ok(credited) => Ok(
                    ContractView {
                        accounts: self.accounts.insert(account, credited),
                        transfers: self.transfers.push(
                            TransferView {
                                id: decimal(ctx.block_timestamp as nat),
                                sender: account,
                                receiver: ctx.current_account_id,
                                amount: ctx.attached_deposit,
                                timestamp: ctx.block_timestamp,
                            },
                        ),
                        ..self
                    },
                ),
            }
        }
    }

    /// The caller withdraws `amount` from its own entry: the amount is
    /// owed to the caller, and the transfer is logged.
    pub open spec fn withdraw_near(self, ctx: ContextView, amount: u128) -> Result<
        (PayoutView, ContractView),
        Fault,
    > {
        let account = ctx.predecessor_account_id;
        if !self.accounts.contains_key(account) {
            Err(Fault::AccountNotFound)
        } else if self.accounts[account].balance < amount {
            Err(Fault::WithdrawExceedsBalance)
        } else {
            match self.accounts[account].withdraw(account, amount) {
                Err(e) => Err(e),
                Ok(debited) => Ok(
                    (
                        PayoutView { to: account, amount },
                        ContractView {
                            accounts: self.accounts.insert(account, debited),
                            transfers: self.transfers.push(
                                TransferView {
                                    id: decimal(ctx.block_timestamp as nat),
                                    sender: ctx.current_account_id,
                                    receiver: account,
                                    amount,
                                    timestamp: ctx.block_timestamp,
                                },
                            ),
                            ..self
                        },
                    ),
                ),
            }
        }
    }

    /// Unlocks `amount` in the entry of `account`.
    pub open spec fn unlock_account(self, account: Seq<char>, amount: u128) -> Result<
        ContractView,
        Fault,
    > {
        if !self.accounts.contains_key(account) {
            Err(Fault::AccountNotFound)
        } else {
            match self.accounts[account].unlock(amount) {
                Err(e) => Err(e),
                Ok(unlocked) => Ok(
                    ContractView { accounts: self.accounts.insert(account, unlocked), ..self },
                ),
            }
        }
    }

    /// The number of transfers that `account` sent or received.
    pub open spec fn transfers_of(self, account: Seq<char>) -> nat {
        self.transfers.filter(|t: TransferView| t.involves(account)).len()
    }

    /// The number of trades in which `account` sold or bought.
    pub open spec fn trades_of(self, account: Seq<char>) -> nat {
        self.trades.filter(|t: TradeView| t.involves(account)).len()
    }

    /// The number of transfers of `account` as a signed count, where it
    /// fits one.
    pub open spec fn transfers_count(self, account: Seq<char>) -> Result<i32, Fault> {
        if self.transfers_of(account) <= i32::MAX {
            Ok(self.transfers_of(account) as i32)
        } else {
            Err(Fault::Overflow)
        }
    }
}

impl ContractView {
    /// What anyone may know of `account`: its reputation, and how many
    /// trades, transfers and offers it has made.
    pub open spec fn pub_info(self, account: Seq<char>) -> Option<PubAccountInfoView> {
        if self.accounts.contains_key(account) {
            Some(
                PubAccountInfoView {
                    id: self.accounts[account].id,
                    likes: self.accounts[account].likes,
                    trades: self.trades_of(account) as usize,
                    transfers: self.transfers_of(account) as usize,
                    offers: capped(self.offers_of(account) + self.token_offers_of(account)),
                    dislikes: self.accounts[account].dislikes,
                    blocked_by: self.accounts[account].blocked_by,
                    created_on: self.accounts[account].created_on,
                },
            )
        } else {
            None
        }
    }
}

impl Contract {
    /// What anyone may know of `account_id`, if it is registered.
    pub fn acc_pub_info(&self, account_id: AccountId) -> (r: Option<PubAccountInfo>)
        ensures
            crate::option_view(r) == self@.pub_info(account_id@),
    {
        broadcast use group_views;

        let entry = match self.accounts.get(account_id.as_string()) {
            Some(a) => a,
            None => {
                return None;
            },
        };
        let plain = self.get_offers_len_by_account(account_id.clone());
        let token = self.get_t_offers_len_by_account(account_id.clone());
        let offers = if plain > usize::MAX - token {
            usize::MAX
        } else {
            plain + token
        };
        Some(
            PubAccountInfo {
                id: entry.id.clone(),
                likes: entry.likes,
                trades: self.get_trades_length_by_account(account_id.clone()),
                transfers: self.get_transfers_len_by_account(account_id),
                offers,
                dislikes: entry.dislikes,
                blocked_by: entry.blocked_by,
                created_on: entry.created_on,
            },
        )
    }

    /// Registers `account_id` with an empty entry, created at the time of
    /// the call. Registering an account again changes nothing. The answer
    /// says which of the two happened.
    pub fn register_new_account(&mut self, ctx: &Context, account_id: AccountId) -> (r: String)
        ensures
            (r@, final(self)@) == old(self)@.register_new_account(ctx@, account_id@),
            old(self)@.accounts.contains_key(account_id@) ==> *final(self) == *old(self),
    {
        broadcast use group_views;

        if self.accounts.contains_key(account_id.as_string()) {
            "Account already registered".to_string()
        } else {
            let key = account_id.to_string();
            self.accounts.insert(key, Account::new(account_id, ctx.block_timestamp));
            "Account registered successfully".to_string()
        }
    }

    /// The entry of `account_id`, if it is registered.
    pub fn get_account(&self, account_id: AccountId) -> (r: Option<&Account>)
        ensures
            match r {
                Some(a) => self@.accounts.contains_key(account_id@) && a@
                    == self@.accounts[account_id@],
                None => !self@.accounts.contains_key(account_id@),
            },
    {
        broadcast use group_views;

        self.accounts.get(account_id.as_string())
    }

    /// The entry of `account_id`, if it is registered.
    pub fn pub_get_account(&self, account_id: AccountId) -> (r: Option<&Account>)
        ensures
            match r {
                Some(a) => self@.accounts.contains_key(account_id@) && a@
                    == self@.accounts[account_id@],
                None => !self@.accounts.contains_key(account_id@),
            },
    {
        broadcast use group_views;

        self.accounts.get(account_id.as_string())
    }

    /// Credits the funds that came with the call to the entry of
    /// `account_id`, and logs the transfer under the time of the call.
    pub fn contract_deposit(&mut self, ctx: &Context, account_id: &AccountId) -> (r: Result<
        (),
        Fault,
    >)
        ensures
            done(r, *old(self), *final(self), old(self)@.contract_deposit(ctx@, account_id@)),
    {
        broadcast use group_views;

        if ctx.attached_deposit <= ONE_NEAR {
            return Err(Fault::DepositTooSmall);
        }
        let mut entry = match self.accounts.get(account_id.as_string()) {
            Some(a) => a.clone(),
            None => {
                return Ok(());
            },
        };
        entry.deposit(ctx.attached_deposit)?;
        self.accounts.insert(account_id.to_string(), entry);
        self.add_transfer(
            to_decimal(ctx.block_timestamp as u128),
            account_id.clone(),
            ctx.current_account_id.clone(),
            ctx.attached_deposit,
            ctx.block_timestamp,
        );
        Ok(())
    }

    /// The caller withdraws `amount` from its own entry. The payout that
    /// is returned is owed to the caller.
    pub fn withdraw_near(&mut self, ctx: &Context, amount: u128) -> (r: Result<Payout, Fault>)
        ensures
            match old(self)@.withdraw_near(ctx@, amount) {
                Ok((payout, next)) => r matches Ok(p) && p@ == payout && final(self)@ == next,
                Err(e) => r matches Err(f) && f == e && *final(self) == *old(self),
            },
    {
        broadcast use group_views;

        let account_id = ctx.predecessor_account_id.clone();
        let mut entry = match self.accounts.get(account_id.as_string()) {
            Some(a) => a.clone(),
            None => {
                return Err(Fault::AccountNotFound);
            },
        };
        if entry.balance < amount {
            return Err(Fault::WithdrawExceedsBalance);
        }
        entry.withdraw(&account_id, amount)?;
        self.accounts.insert(account_id.to_string(), entry);
        self.add_transfer(
            to_decimal(ctx.block_timestamp as u128),
            ctx.current_account_id.clone(),
            account_id.clone(),
            amount,
            ctx.block_timestamp,
        );
        Ok(Payout { to: account_id, amount })
    }

    /// Every entry, in the order of registration. Only the account under
    /// which the ledger runs may ask.
    pub fn get_all_accounts(&self, ctx: &Context) -> (r: Result<Vec<&Account>, Fault>)
        ensures
            match r {
                Ok(list) => ctx@.predecessor_account_id == ctx@.current_account_id && list@.len()
                    == self.accounts@.len() && forall|i: int|
                    0 <= i < list@.len() ==> *list@[i] == self.accounts@.values()[i],
                Err(e) => ctx@.predecessor_account_id != ctx@.current_account_id && e
                    == Fault::NotContractOwner,
            },
    {
        if ctx.predecessor_account_id != ctx.current_account_id {
            return Err(Fault::NotContractOwner);
        }
        let mut out: Vec<&Account> = Vec::new();
        let n = self.accounts.len();
        let mut i: usize = 0;
        while i < n
            invariant
                i <= n,
                n == self.accounts@.len(),
                out.len() == i,
                forall|j: int| 0 <= j < i ==> *out@[j] == self.accounts@.values()[j],
            decreases n - i,
        {
            out.push(self.accounts.value_at(i));
            i += 1;
        }
        Ok(out)
    }

    /// The spendable balance of `account_id` in words.
    pub fn get_account_balance_as_string(&self, account_id: &AccountId) -> (r: Result<
        String,
        Fault,
    >)
        ensures
            match r {
                Ok(s) => self@.accounts.contains_key(account_id@) && s@
                    == self@.accounts[account_id@].balance_text(),
                Err(e) => !self@.accounts.contains_key(account_id@) && e == Fault::AccountNotFound,
            },
    {
        broadcast use group_views;

        match self.accounts.get(account_id.as_string()) {
            Some(a) => Ok(a.get_balance_as_string()),
            None => Err(Fault::AccountNotFound),
        }
    }

    /// Succeeds where the caller is `account_id`.
    pub fn assert_account_owner(&self, ctx: &Context, account_id: AccountId) -> (r: Result<
        (),
        Fault,
    >)
        ensures
            match r {
                Ok(_) => ctx@.predecessor_account_id == account_id@,
                Err(e) => ctx@.predecessor_account_id != account_id@ && e == Fault::NotAllowed,
            },
    {
        if ctx.predecessor_account_id == account_id {
            Ok(())
        } else {
            Err(Fault::NotAllowed)
        }
    }

    /// Unlocks `amount` in the entry of `account_id`.
    pub fn unlock_account(&mut self, account_id: AccountId, amount: u128) -> (r: Result<(), Fault>)
        ensures
            done(r, *old(self), *final(self), old(self)@.unlock_account(account_id@, amount)),
    {
        broadcast use group_views;

        let mut entry = match self.accounts.get(account_id.as_string()) {
            Some(a) => a.clone(),
            None => {
                return Err(Fault::AccountNotFound);
            },
        };
        entry.unlock(amount)?;
        self.accounts.insert(account_id.to_string(), entry);
        Ok(())
    }

    /// The number of transfers that `account_id` sent or received.
    pub fn acc_transfers_count(&self, account_id: AccountId) -> (r: Result<i32, Fault>)
        ensures
            r == self@.transfers_count(account_id@),
    {
        let n = self.get_transfers_len_by_account(account_id);
        if n <= i32::MAX as usize {
            Ok(n as i32)
        } else {
            Err(Fault::Overflow)
        }
    }

    /// The count that stands for the trades of `account_id`: the number
    /// of transfers that it sent or received.
    pub fn acc_trades_count(&self, account_id: AccountId) -> (r: Result<i32, Fault>)
        ensures
            r == self@.transfers_count(account_id@),
    {
        self.acc_transfers_count(account_id)
    }

    /// The count that stands for the offers of `account_id`: the number
    /// of transfers that it sent or received.
    pub fn acc_offers_count(&self, account_id: AccountId) -> (r: Result<i32, Fault>)
        ensures
            r == self@.transfers_count(account_id@),
    {
        self.acc_transfers_count(account_id)
    }
}

/// Every entry of `s` is in `next`, under the same owner and with the
/// same time of creation.
pub open spec fn entries_persist(s: ContractView, next: ContractView) -> bool {
    forall|k: Seq<char>| #[trigger]
        s.accounts.contains_key(k) ==> next.accounts.contains_key(k) && next.accounts[k].id
            == s.accounts[k].id && next.accounts[k].created_on == s.accounts[k].created_on
}

/// An entry is never deleted. Registration, deposits, withdrawals and
/// unlocking keep every entry that there was, and registering an account
/// again changes nothing.
pub proof fn entries_are_kept(s: ContractView, ctx: ContextView, account: Seq<char>, amount: u128)
    ensures
        entries_persist(s, s.register_new_account(ctx, account).1),
        s.register_new_account(ctx, account).1.accounts.contains_key(account),
        s.accounts.contains_key(account) ==> s.register_new_account(ctx, account).1 == s,
        s.contract_deposit(ctx, account) matches Ok(next) ==> entries_persist(s, next),
        s.withdraw_near(ctx, amount) matches Ok((_, next)) ==> entries_persist(s, next),
        s.unlock_account(account, amount) matches Ok(next) ==> entries_persist(s, next),
{
}

} // verus!
