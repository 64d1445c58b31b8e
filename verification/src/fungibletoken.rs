//! The two halves of a token transfer: the request that is handed to the
//! transfer bridge, and what the ledger does when the bridge reports back.
use crate::account::{Account, AccountView};
use crate::account_id::AccountId;
use crate::errors::Fault;
use crate::registry::group_views;
use crate::tokenchats::TokenChatView;
use crate::{done, Context, ContextView, Contract, ContractView};
use vstd::prelude::*;

verus! {

/// A transfer request as a mathematical value.
pub struct TransferRequestView {
    pub from: Seq<char>,
    pub to: Seq<char>,
    pub token: Seq<char>,
    pub amount: u128,
    pub chat_id: Seq<char>,
}

/// A transfer of tokens that the bridge is asked to make for a chat.
#[derive(Debug)]
pub struct TransferRequest {
    pub from: AccountId,
    pub to: AccountId,
    pub token: AccountId,
    pub amount: u128,
    pub chat_id: String,
}

impl View for TransferRequest {
    type V = TransferRequestView;

    open spec fn view(&self) -> TransferRequestView {
        TransferRequestView {
            from: self.from@,
            to: self.to@,
            token: self.token@,
            amount: self.amount,
            chat_id: self.chat_id@,
        }
    }
}

impl Clone for TransferRequest {
    fn clone(&self) -> (r: Self)
        ensures
            r@ == self@,
    {
        TransferRequest {
            from: self.from.clone(),
            to: self.to.clone(),
            token: self.token.clone(),
            amount: self.amount,
            chat_id: self.chat_id.clone(),
        }
    }
}

/// A withdrawal request as a mathematical value.
pub struct WithdrawalRequestView {
    pub account: Seq<char>,
    pub token: Seq<char>,
    pub amount: u128,
}

/// A transfer of tokens out of the ledger to the account that holds them.
#[derive(Debug)]
pub struct WithdrawalRequest {
    pub account: AccountId,
    pub token: AccountId,
    pub amount: u128,
}

impl View for WithdrawalRequest {
    type V = WithdrawalRequestView;

    open spec fn view(&self) -> WithdrawalRequestView {
        WithdrawalRequestView {
            account: self.account@,
            token: self.token@,
            amount: self.amount,
        }
    }
}

impl Clone for WithdrawalRequest {
    fn clone(&self) -> (r: Self)
        ensures
            r@ == self@,
    {
        WithdrawalRequest {
            account: self.account.clone(),
            token: self.token.clone(),
            amount: self.amount,
        }
    }
}

/// What the bridge reports of a transfer it was asked to make.
#[derive(Clone, Copy, Debug, PartialEq, Eq, Structural)]
pub enum TransferOutcome {
    Successful,
    Failed,
}

impl ContractView {
    /// Tokens that arrived at the ledger are credited to `account`, which
    /// is registered first if it is new.
    pub open spec fn deposit_tokens(
        self,
        ctx: ContextView,
        account: Seq<char>,
        token: Seq<char>,
        amount: u128,
    ) -> Result<ContractView, Fault> {
        let entry = if self.accounts.contains_key(account) {
            self.accounts[account]
        } else {
            AccountView::fresh(account, ctx.block_timestamp)
        };
        match entry.deposit_tokens(token, amount) {
            Err(e) => Err(e),
            Ok(credited) => Ok(
                ContractView { accounts: self.accounts.insert(account, credited), ..self },
            ),
        }
    }

    /// The bridge reports on the transfer of a chat. Only the ledger
    /// itself may deliver the report. After a success the tokens are
    /// released from the entry of `account`; after a failure the chat is
    /// no longer marked as released or received, so that the release can
    /// be tried again; the fee stays booked and no funds move.
    pub open spec fn withdraw_tokens(
        self,
        ctx: ContextView,
        account: Seq<char>,
        token: Seq<char>,
        amount: u128,
        chat_id: Seq<char>,
        outcome: TransferOutcome,
    ) -> Result<ContractView, Fault> {
        if ctx.predecessor_account_id != ctx.current_account_id {
            Err(Fault::NotAllowed)
        } else {
            match outcome {
                TransferOutcome::Successful => self.tokens_released(account, token, amount),
                TransferOutcome::Failed => if !self.tokenchats.contains_key(chat_id) {
                    Err(Fault::ChatNotFound)
                } else {
                    Ok(
                        ContractView {
                            tokenchats: self.tokenchats.insert(
                                chat_id,
                                TokenChatView {
                                    released: false,
                                    received: false,
                                    ..self.tokenchats[chat_id]
                                },
                            ),
                            ..self
                        },
                    )
                },
            }
        }
    }

    /// The bridge reports on a withdrawal of tokens. After a success the
    /// tokens are released from the entry of `account`; a failure is a
    /// fault.
    pub open spec fn withdraw_asset(
        self,
        ctx: ContextView,
        account: Seq<char>,
        token: Seq<char>,
        amount: u128,
        outcome: TransferOutcome,
    ) -> Result<ContractView, Fault> {
        if ctx.predecessor_account_id != ctx.current_account_id {
            Err(Fault::NotAllowed)
        } else {
            match outcome {
                TransferOutcome::Successful => self.tokens_released(account, token, amount),
                TransferOutcome::Failed => Err(Fault::TransactionFailed),
            }
        }
    }

    /// The ledger after `amount` of the locked tokens left the entry of
    /// `account`.
    pub open spec fn tokens_released(
        self,
        account: Seq<char>,
        token: Seq<char>,
        amount: u128,
    ) -> Result<ContractView, Fault> {
        if !self.accounts.contains_key(account) {
            Err(Fault::AccountNotFound)
        } else {
            match self.accounts[account].token_release(token, amount) {
                Err(e) => Err(e),
                Ok(released) => Ok(
                    ContractView { accounts: self.accounts.insert(account, released), ..self },
                ),
            }
        }
    }
}

impl Contract {
    /// Credits tokens that arrived at the ledger to `account_id`; an
    /// account that is not registered yet is registered first.
    pub fn deposit_tokens(
        &mut self,
        ctx: &Context,
        account_id: AccountId,
        token_id: AccountId,
        amount: u128,
    ) -> (r: Result<(), Fault>)
        ensures
            done(
                r,
                *old(self),
                *final(self),
                old(self)@.deposit_tokens(ctx@, account_id@, token_id@, amount),
            ),
    {
        broadcast use group_views;

        let mut entry = match self.accounts.get(account_id.as_string()) {
            Some(a) => a.clone(),
            None => Account::new(account_id.clone(), ctx.block_timestamp),
        };
        entry.deposit_tokens(token_id, amount)?;
        self.accounts.insert(account_id.to_string(), entry);
        Ok(())
    }

    /// Releases `amount` of the locked tokens of `account_id`.
    fn release_tokens_of(
        &mut self,
        account_id: &AccountId,
        token_id: AccountId,
        amount: u128,
    ) -> (r: Result<(), Fault>)
        ensures
            done(
                r,
                *old(self),
                *final(self),
                old(self)@.tokens_released(account_id@, token_id@, amount),
            ),
    {
        broadcast use group_views;

        let mut entry = match self.accounts.get(account_id.as_string()) {
            Some(a) => a.clone(),
            None => {
                return Err(Fault::AccountNotFound);
            },
        };
        entry.token_release(token_id, amount)?;
        self.accounts.insert(account_id.to_string(), entry);
        Ok(())
    }

    /// Takes the report of the bridge on the transfer of the chat
    /// `chat_id`, and finishes the release or takes it back.
    pub fn withdraw_tokens(
        &mut self,
        ctx: &Context,
        account_id: AccountId,
        token_id: AccountId,
        amount: u128,
        chat_id: String,
        outcome: TransferOutcome,
    ) -> (r: Result<(), Fault>)
        ensures
            done(
                r,
                *old(self),
                *final(self),
                old(self)@.withdraw_tokens(
                    ctx@,
                    account_id@,
                    token_id@,
                    amount,
                    chat_id@,
                    outcome,
                ),
            ),
    {
        broadcast use group_views;

        if ctx.predecessor_account_id != ctx.current_account_id {
            return Err(Fault::NotAllowed);
        }
        match outcome {
            TransferOutcome::Successful => self.release_tokens_of(&account_id, token_id, amount),
            TransferOutcome::Failed => {
                let mut chat = match self.tokenchats.get(&chat_id) {
                    Some(c) => c.clone(),
                    None => {
                        return Err(Fault::ChatNotFound);
                    },
                };
                chat.released = false;
                chat.received = false;
                self.tokenchats.insert(chat_id, chat);
                Ok(())
            },
        }
    }

    /// Takes the report of the bridge on a withdrawal of tokens.
    pub fn withdraw_asset(
        &mut self,
        ctx: &Context,
        acc: AccountId,
        token: AccountId,
        amount: u128,
        outcome: TransferOutcome,
    ) -> (r: Result<(), Fault>)
        ensures
            done(
                r,
                *old(self),
                *final(self),
                old(self)@.withdraw_asset(ctx@, acc@, token@, amount, outcome),
            ),
    {
        if ctx.predecessor_account_id != ctx.current_account_id {
            return Err(Fault::NotAllowed);
        }
        match outcome {
            TransferOutcome::Successful => self.release_tokens_of(&acc, token, amount),
            TransferOutcome::Failed => Err(Fault::TransactionFailed),
        }
    }

    /// The transfer that the bridge is asked to make for the chat
    /// `chat_id`.
    pub fn send_tokens(
        &self,
        from: AccountId,
        to: AccountId,
        token: AccountId,
        amount: u128,
        chat_id: String,
    ) -> (r: TransferRequest)
        ensures
            r@ == (TransferRequestView {
                from: from@,
                to: to@,
                token: token@,
                amount,
                chat_id: chat_id@,
            }),
    {
        TransferRequest { from, to, token, amount, chat_id }
    }

    /// The withdrawal of `amount` of `token` that the caller asks for.
    pub fn withdraw_named_asset(&self, ctx: &Context, token: AccountId, amount: u128) -> (r:
        WithdrawalRequest)
        ensures
            r@ == (WithdrawalRequestView {
                account: ctx@.predecessor_account_id,
                token: token@,
                amount,
            }),
    {
        WithdrawalRequest { account: ctx.predecessor_account_id.clone(), token, amount }
    }
}

} // verus!
