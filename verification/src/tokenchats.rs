//! Chats over offers in a token: the record of a negotiation and the steps
//! that open it, mark its progress, cancel it, hand its escrow to the
//! transfer bridge and rate its parties.
use crate::account::{entries_persist, held};
use crate::account_id::AccountId;
use crate::errors::Fault;
use crate::fungibletoken::{TransferOutcome, TransferRequest, TransferRequestView};
use crate::offer::{is_buy, is_sell};
use crate::registry::{
    group_views, lemma_filter_start, lemma_filter_step, lemma_views_values, seq_views, Listing,
};
use crate::tokenoffers::{CompleteTokenOffer, CompleteTokenOfferView};
use crate::{done, said, Context, ContextView, Contract, ContractView};
use vstd::prelude::*;

verus! {

/// A token chat as a mathematical value.
pub struct TokenChatView {
    pub id: Seq<char>,
    pub offer_id: Seq<char>,
    pub token_id: Seq<char>,
    pub owner: Seq<char>,
    pub offerer: Seq<char>,
    pub amount: u128,
    pub trade_cost: u128,
    pub trade_cost_usd: u128,
    pub started_at: u64,
    pub ended_at: Option<u64>,
    pub active: bool,
    pub payer: Seq<char>,
    pub receiver: Seq<char>,
    pub paid: bool,
    pub received: bool,
    pub canceled: bool,
    pub released: bool,
    pub fee_booked: bool,
    pub payer_has_rated: bool,
    pub receiver_has_rated: bool,
    pub payment_msg: Seq<char>,
    pub created_on: u64,
    pub updated_on: Option<u64>,
}

/// The record of one negotiation over an offer in a token.
#[derive(Debug)]
pub struct TokenChat {
    pub id: String,
    pub offer_id: String,
    pub token_id: AccountId,
    /// The account that opened the chat.
    pub owner: AccountId,
    /// The account that wrote the offer.
    pub offerer: AccountId,
    /// The quantity of the token that is traded.
    pub amount: u128,
    /// The fee for the trade, in the native currency.
    pub trade_cost: u128,
    /// The fee in millionths of a dollar.
    pub trade_cost_usd: u128,
    pub started_at: u64,
    pub ended_at: Option<u64>,
    pub active: bool,
    /// The account that pays the leg outside the ledger.
    pub payer: AccountId,
    /// The account that receives the leg outside the ledger.
    pub receiver: AccountId,
    pub paid: bool,
    pub received: bool,
    pub canceled: bool,
    pub released: bool,
    /// Whether the fee of the chat has been booked as revenue.
    pub fee_booked: bool,
    pub payer_has_rated: bool,
    pub receiver_has_rated: bool,
    pub payment_msg: String,
    pub created_on: u64,
    pub updated_on: Option<u64>,
}

impl View for TokenChat {
    type V = TokenChatView;

    open spec fn view(&self) -> TokenChatView {
        TokenChatView {
            id: self.id@,
            offer_id: self.offer_id@,
            token_id: self.token_id@,
            owner: self.owner@,
            offerer: self.offerer@,
            amount: self.amount,
            trade_cost: self.trade_cost,
            trade_cost_usd: self.trade_cost_usd,
            started_at: self.started_at,
            ended_at: self.ended_at,
            active: self.active,
            payer: self.payer@,
            receiver: self.receiver@,
            paid: self.paid,
            received: self.received,
            canceled: self.canceled,
            released: self.released,
            fee_booked: self.fee_booked,
            payer_has_rated: self.payer_has_rated,
            receiver_has_rated: self.receiver_has_rated,
            payment_msg: self.payment_msg@,
            created_on: self.created_on,
            updated_on: self.updated_on,
        }
    }
}

impl Clone for TokenChat {
    fn clone(&self) -> (r: Self)
        ensures
            r@ == self@,
    {
        TokenChat {
            id: self.id.clone(),
            offer_id: self.offer_id.clone(),
            token_id: self.token_id.clone(),
            owner: self.owner.clone(),
            offerer: self.offerer.clone(),
            amount: self.amount,
            trade_cost: self.trade_cost,
            trade_cost_usd: self.trade_cost_usd,
            started_at: self.started_at,
            ended_at: self.ended_at,
            active: self.active,
            payer: self.payer.clone(),
            receiver: self.receiver.clone(),
            paid: self.paid,
            received: self.received,
            canceled: self.canceled,
            released: self.released,
            fee_booked: self.fee_booked,
            payer_has_rated: self.payer_has_rated,
            receiver_has_rated: self.receiver_has_rated,
            payment_msg: self.payment_msg.clone(),
            created_on: self.created_on,
            updated_on: self.updated_on,
        }
    }
}

/// A complete token chat as a mathematical value.
pub struct CompleteTokenChatView {
    pub chat: Option<TokenChatView>,
    pub offer: Option<CompleteTokenOfferView>,
}

/// A token chat together with its offer.
#[derive(Debug)]
pub struct CompleteTokenChat {
    pub chat: Option<TokenChat>,
    pub offer: Option<CompleteTokenOffer>,
}

impl View for CompleteTokenChat {
    type V = CompleteTokenChatView;

    open spec fn view(&self) -> CompleteTokenChatView {
        CompleteTokenChatView {
            chat: match self.chat {
                Some(x) => Some(x@),
                None => None,
            },
            offer: match self.offer {
                Some(x) => Some(x@),
                None => None,
            },
        }
    }
}

impl Clone for CompleteTokenChat {
    fn clone(&self) -> (r: Self)
        ensures
            r@ == self@,
    {
        CompleteTokenChat {
            chat: match &self.chat {
                Some(x) => Some(x.clone()),
                None => None,
            },
            offer: match &self.offer {
                Some(x) => Some(x.clone()),
                None => None,
            },
        }
    }
}

impl TokenChatView {
    /// A chat as it is opened at time `now`: active, with no step taken.
    pub open spec fn fresh(
        id: Seq<char>,
        offer_id: Seq<char>,
        token_id: Seq<char>,
        owner: Seq<char>,
        offerer: Seq<char>,
        amount: u128,
        trade_cost: u128,
        trade_cost_usd: u128,
        payer: Seq<char>,
        receiver: Seq<char>,
        payment_msg: Seq<char>,
        now: u64,
    ) -> TokenChatView {
        TokenChatView {
            id,
            offer_id,
            token_id,
            owner,
            offerer,
            amount,
            trade_cost,
            trade_cost_usd,
            started_at: now,
            ended_at: None,
            active: true,
            payer,
            receiver,
            paid: false,
            received: false,
            canceled: false,
            released: false,
            fee_booked: false,
            payer_has_rated: false,
            receiver_has_rated: false,
            payment_msg,
            created_on: now,
            updated_on: Some(now),
        }
    }

    /// Whether `account` opened the chat or wrote its offer.
    pub open spec fn involves(self, account: Seq<char>) -> bool {
        self.owner == account || self.offerer == account
    }

    /// Whether `caller` is the one who may mark the chat as paid.
    pub open spec fn is_payer(self, caller: Seq<char>) -> bool {
        self.payer == caller
    }

    /// Whether `caller` is the one who may mark the chat as received.
    pub open spec fn is_receiver(self, caller: Seq<char>) -> bool {
        self.receiver == caller
    }

    /// The payer marks the chat as paid; anyone else changes nothing.
    pub open spec fn mark_as_paid(self, caller: Seq<char>) -> TokenChatView {
        if self.is_payer(caller) {
            TokenChatView { paid: true, ..self }
        } else {
            self
        }
    }

    /// The receiver marks the chat as received; anyone else changes
    /// nothing.
    pub open spec fn mark_as_received(self, caller: Seq<char>) -> TokenChatView {
        if self.is_receiver(caller) {
            TokenChatView { received: true, ..self }
        } else {
            self
        }
    }

    /// Whether the chat can still be canceled: nothing was paid or
    /// received.
    pub open spec fn cancelable(self) -> bool {
        !self.paid && !self.received
    }

    /// The chat is canceled and closed if it can still be canceled.
    pub open spec fn mark_as_canceled(self) -> TokenChatView {
        if self.cancelable() {
            TokenChatView { canceled: true, active: false, ..self }
        } else {
            self
        }
    }
}

impl TokenChat {
    /// A chat as it is opened at time `now`: active, with no step taken.
    pub fn new(
        id: String,
        offer_id: String,
        token_id: AccountId,
        owner: AccountId,
        offerer: AccountId,
        amount: u128,
        trade_cost: u128,
        trade_cost_usd: u128,
        payer: AccountId,
        receiver: AccountId,
        payment_msg: String,
        now: u64,
    ) -> (r: Self)
        ensures
            r@ == TokenChatView::fresh(
                id@,
                offer_id@,
                token_id@,
                owner@,
                offerer@,
                amount,
                trade_cost,
                trade_cost_usd,
                payer@,
                receiver@,
                payment_msg@,
                now,
            ),
    {
        Self {
            id,
            offer_id,
            token_id,
            owner,
            offerer,
            amount,
            trade_cost,
            trade_cost_usd,
            started_at: now,
            ended_at: None,
            active: true,
            payer,
            receiver,
            paid: false,
            received: false,
            canceled: false,
            released: false,
            fee_booked: false,
            payer_has_rated: false,
            receiver_has_rated: false,
            payment_msg,
            created_on: now,
            updated_on: Some(now),
        }
    }

    /// Sets the end of the chat to `now`.
    pub fn update_ended_at(&mut self, now: u64)
        ensures
            final(self)@ == (TokenChatView { ended_at: Some(now), ..old(self)@ }),
    {
        self.ended_at = Some(now);
    }

    /// Opens or closes the chat.
    pub fn update_active_status(&mut self, active: bool)
        ensures
            final(self)@ == (TokenChatView { active, ..old(self)@ }),
    {
        self.active = active;
    }

    /// Marks the chat as paid if `caller` is its payer, and says whether
    /// it did.
    pub fn mark_as_paid(&mut self, caller: &AccountId) -> (r: String)
        ensures
            final(self)@ == old(self)@.mark_as_paid(caller@),
            r@ == (if old(self)@.is_payer(caller@) {
                "success"@
            } else {
                "failed"@
            }),
    {
        if self.payer == *caller {
            self.paid = true;
            return "success".to_string();
        }
        "failed".to_string()
    }

    /// Marks the chat as received if `caller` is its receiver, and says
    /// whether it did.
    pub fn mark_as_received(&mut self, caller: &AccountId) -> (r: String)
        ensures
            final(self)@ == old(self)@.mark_as_received(caller@),
            r@ == (if old(self)@.is_receiver(caller@) {
                "success"@
            } else {
                "failed"@
            }),
    {
        if self.receiver == *caller {
            self.received = true;
            return "success".to_string();
        }
        "failed".to_string()
    }

    /// Marks the escrow of the chat as released. The mark is never taken
    /// back by the chat itself.
    pub fn mark_as_released(&mut self)
        ensures
            final(self)@ == (TokenChatView { released: true, ..old(self)@ }),
    {
        self.released = true;
    }

    /// Cancels and closes the chat unless it was marked as paid or as
    /// received, and says which.
    pub fn mark_as_canceled(&mut self) -> (r: String)
        ensures
            final(self)@ == old(self)@.mark_as_canceled(),
            r@ == (if old(self)@.cancelable() {
                "chat canceled"@
            } else {
                "Chat cannot be cancelled since its either marked as paid or received"@
            }),
    {
        if self.paid == false && self.received == false {
            self.canceled = true;
            self.active = false;
            return "chat canceled".to_string();
        } else {
            return "Chat cannot be cancelled since its either marked as paid or received".to_string();
        }
    }
}

/// What marking a token chat as received answers: a text, and the
/// transfer that the bridge is asked to make where the mark released the
/// escrow.
#[derive(Debug)]
pub struct TokenReceipt {
    pub status: String,
    pub transfer: Option<TransferRequest>,
}

impl ContractView {
    /// Opens a token chat of `owner` over an offer to buy. The traded
    /// tokens and the fee, which is in the native currency, are locked in
    /// the entry of `owner`, who must be registered. An id that is in use
    /// is refused. Every refusal leaves the ledger as it was.
    pub open spec fn add_token_buy_chat(
        self,
        ctx: ContextView,
        id: Seq<char>,
        offer_id: Seq<char>,
        token_id: Seq<char>,
        owner: Seq<char>,
        amount: u128,
        payer: Seq<char>,
        receiver: Seq<char>,
        payment_msg: Seq<char>,
        trade_cost: u128,
        trade_cost_usd: u128,
    ) -> Result<(Seq<char>, ContractView), Fault> {
        if self.tokenchats.contains_key(id) {
            Ok(("Chat already exists"@, self))
        } else if !self.tokenoffers.contains_key(offer_id) {
            Ok(("Offer not found"@, self))
        } else if owner == self.tokenoffers[offer_id].offerer {
            Ok(("You can't chat with yourself"@, self))
        } else if !is_buy(self.tokenoffers[offer_id].offer_type) {
            Ok(("Offer is not for buy"@, self))
        } else if !self.accounts.contains_key(owner) {
            Ok(("You must be a registered user to chat with someone"@, self))
        } else if self.accounts[owner].balance < trade_cost {
            Ok(("You don't have enough balance to chat with someone"@, self))
        } else {
            match self.accounts[owner].get_token_balance(token_id) {
                Err(e) => Err(e),
                Ok(balance) => if balance < amount {
                    Ok(("You don't have enough balance to chat with someone"@, self))
                } else {
                    self.open_token_chat(
                        ctx,
                        id,
                        offer_id,
                        token_id,
                        owner,
                        amount,
                        payer,
                        receiver,
                        payment_msg,
                        trade_cost,
                        trade_cost_usd,
                        owner,
                    )
                },
            }
        }
    }

    /// Opens a token chat of `owner`, who must be registered, over an
    /// offer to sell. The traded tokens and the fee are locked in the
    /// entry of the offer's author. An id that is in use is refused.
    pub open spec fn add_token_sell_chat(
        self,
        ctx: ContextView,
        id: Seq<char>,
        offer_id: Seq<char>,
        token_id: Seq<char>,
        owner: Seq<char>,
        amount: u128,
        payer: Seq<char>,
        receiver: Seq<char>,
        payment_msg: Seq<char>,
        trade_cost: u128,
        trade_cost_usd: u128,
    ) -> Result<(Seq<char>, ContractView), Fault> {
        if self.tokenchats.contains_key(id) {
            Ok(("Chat already exists"@, self))
        } else if !self.tokenoffers.contains_key(offer_id) {
            Ok(("Offer not found"@, self))
        } else if owner == self.tokenoffers[offer_id].offerer {
            Ok(("You can't chat with yourself"@, self))
        } else if !is_sell(self.tokenoffers[offer_id].offer_type) {
            Ok(("Offer is not for sell"@, self))
        } else if !self.accounts.contains_key(owner) {
            Ok(("You must be a registered user to chat with someone"@, self))
        } else if !self.accounts.contains_key(self.tokenoffers[offer_id].offerer) {
            Err(Fault::AccountNotFound)
        } else {
            match self.accounts[self.tokenoffers[offer_id].offerer].get_token_balance(token_id) {
                Err(e) => Err(e),
                Ok(balance) => if balance < amount {
                    Ok(("Offerer does not have sufficient balance to hold the trade."@, self))
                } else if self.accounts[self.tokenoffers[offer_id].offerer].balance < trade_cost {
                    Ok(("Offerer does not have sufficient balance to hold the trade. "@, self))
                } else {
                    self.open_token_chat(
                        ctx,
                        id,
                        offer_id,
                        token_id,
                        owner,
                        amount,
                        payer,
                        receiver,
                        payment_msg,
                        trade_cost,
                        trade_cost_usd,
                        self.tokenoffers[offer_id].offerer,
                    )
                },
            }
        }
    }

    /// Records the chat and locks the tokens and the fee in the entry of
    /// `party`, the one who escrows.
    pub open spec fn open_token_chat(
        self,
        ctx: ContextView,
        id: Seq<char>,
        offer_id: Seq<char>,
        token_id: Seq<char>,
        owner: Seq<char>,
        amount: u128,
        payer: Seq<char>,
        receiver: Seq<char>,
        payment_msg: Seq<char>,
        trade_cost: u128,
        trade_cost_usd: u128,
        party: Seq<char>,
    ) -> Result<(Seq<char>, ContractView), Fault> {
        match self.accounts[party].lock_tokens(token_id, amount) {
            Err(e) => Err(e),
            Ok(with_tokens) => match with_tokens.lock(trade_cost) {
                Err(e) => Err(e),
                Ok(locked) => Ok(
                    (
                        "created"@,
                        ContractView {
                            tokenchats: self.tokenchats.insert(
                                id,
                                TokenChatView::fresh(
                                    id,
                                    offer_id,
                                    token_id,
                                    owner,
                                    self.tokenoffers[offer_id].offerer,
                                    amount,
                                    trade_cost,
                                    trade_cost_usd,
                                    payer,
                                    receiver,
                                    payment_msg,
                                    ctx.block_timestamp,
                                ),
                            ),
                            accounts: self.accounts.insert(party, locked),
                            ..self
                        },
                    ),
                ),
            },
        }
    }

    /// The party whose entry holds the escrow of a token chat: the one who
    /// opened it, where the offer is one to buy, and the author of the
    /// offer otherwise.
    pub open spec fn token_escrow_party(self, chat_id: Seq<char>) -> Seq<char> {
        if is_buy(self.tokenoffers[self.tokenchats[chat_id].offer_id].offer_type) {
            self.tokenchats[chat_id].owner
        } else {
            self.tokenchats[chat_id].offerer
        }
    }

    /// The party to whom the escrow of a token chat goes on release.
    pub open spec fn token_counterparty(self, chat_id: Seq<char>) -> Seq<char> {
        if is_buy(self.tokenoffers[self.tokenchats[chat_id].offer_id].offer_type) {
            self.tokenchats[chat_id].offerer
        } else {
            self.tokenchats[chat_id].owner
        }
    }

    /// The payer of an active token chat marks it as paid.
    pub open spec fn mark_token_as_paid(self, ctx: ContextView, chat_id: Seq<char>) -> Result<
        (Seq<char>, ContractView),
        Fault,
    > {
        if !self.tokenchats.contains_key(chat_id) {
            Err(Fault::ChatNotFound)
        } else if !self.tokenchats[chat_id].active {
            Ok(("chat is not active"@, self))
        } else {
            Ok(
                (
                    "success"@,
                    ContractView {
                        tokenchats: self.tokenchats.insert(
                            chat_id,
                            self.tokenchats[chat_id].mark_as_paid(ctx.predecessor_account_id),
                        ),
                        ..self
                    },
                ),
            )
        }
    }

    /// The first half of the release of a token chat: the chat is marked
    /// as released and the bridge is asked to move the escrowed tokens from
    /// the party that escrowed them to the other party. The fee is taken
    /// from the escrowing party and booked as revenue at the first attempt
    /// only: a release that is tried again after a failed transfer takes
    /// nothing. The tokens stay locked until the bridge reports. A chat
    /// that was released or canceled is not released.
    pub open spec fn release_tokens(self, ctx: ContextView, chat_id: Seq<char>) -> Result<
        (TransferRequestView, ContractView),
        Fault,
    > {
        if !self.tokenchats.contains_key(chat_id) {
            Err(Fault::ChatNotFound)
        } else if !self.tokenoffers.contains_key(self.tokenchats[chat_id].offer_id) {
            Err(Fault::OfferNotFound)
        } else if self.tokenchats[chat_id].released {
            Err(Fault::AlreadyReleased)
        } else if self.tokenchats[chat_id].canceled {
            Err(Fault::ChatNotActive)
        } else {
            let chat = self.tokenchats[chat_id];
            let buy = is_buy(self.tokenoffers[chat.offer_id].offer_type);
            let from = self.token_escrow_party(chat_id);
            let request = TransferRequestView {
                from,
                to: self.token_counterparty(chat_id),
                token: chat.token_id,
                amount: chat.amount,
                chat_id,
            };
            let marked = ContractView {
                tokenchats: self.tokenchats.insert(
                    chat_id,
                    TokenChatView {
                        released: true,
                        fee_booked: true,
                        ended_at: if buy {
                            chat.ended_at
                        } else {
                            Some(ctx.block_timestamp)
                        },
                        ..chat
                    },
                ),
                ..self
            };
            if chat.fee_booked {
                Ok((request, marked))
            } else {
                match marked.create_revenue(
                    ctx,
                    chat.token_id,
                    "trade"@,
                    from,
                    chat.trade_cost,
                    Some(chat.trade_cost_usd),
                ) {
                    Err(e) => Err(e),
                    Ok(booked) => Ok((request, booked)),
                }
            }
        }
    }

    /// The receiver of an active token chat marks it as received, which
    /// starts the release at once.
    pub open spec fn mark_token_as_received(self, ctx: ContextView, chat_id: Seq<char>) -> Result<
        (Seq<char>, Option<TransferRequestView>, ContractView),
        Fault,
    > {
        if !self.tokenchats.contains_key(chat_id) {
            Err(Fault::ChatNotFound)
        } else if !self.tokenchats[chat_id].active {
            Ok(("chat is not active"@, None, self))
        } else if !self.tokenchats[chat_id].is_receiver(ctx.predecessor_account_id) {
            Ok(("success"@, None, self))
        } else {
            match (ContractView {
                tokenchats: self.tokenchats.insert(
                    chat_id,
                    TokenChatView { received: true, ..self.tokenchats[chat_id] },
                ),
                ..self
            }).release_tokens(ctx, chat_id) {
                Err(e) => Err(e),
                Ok((transfer, next)) => Ok(("success"@, Some(transfer), next)),
            }
        }
    }

    /// Cancels an active token chat on which nothing was paid or
    /// received: the traded tokens are unlocked in the entry that escrowed
    /// them, and the chat is closed.
    pub open spec fn cancel_token_chat(self, chat_id: Seq<char>) -> Result<
        (Seq<char>, ContractView),
        Fault,
    > {
        if !self.tokenchats.contains_key(chat_id) {
            Err(Fault::ChatNotFound)
        } else if !self.tokenoffers.contains_key(self.tokenchats[chat_id].offer_id) {
            Err(Fault::OfferNotFound)
        } else if !self.tokenchats[chat_id].active {
            Err(Fault::ChatNotActive)
        } else if self.tokenchats[chat_id].released {
            Err(Fault::AlreadyReleased)
        } else if !self.tokenchats[chat_id].cancelable() {
            Ok(("Chat cannot be cancelled since its either marked as paid or received"@, self))
        } else {
            let chat = self.tokenchats[chat_id];
            let party = self.token_escrow_party(chat_id);
            if !self.accounts.contains_key(party) {
                Err(Fault::AccountNotFound)
            } else {
                match self.accounts[party].unlock_tokens(chat.token_id, chat.amount) {
                    Err(e) => Err(e),
                    Ok(unlocked) => Ok(
                        (
                            "chat canceled"@,
                            ContractView {
                                tokenchats: self.tokenchats.insert(
                                    chat_id,
                                    chat.mark_as_canceled(),
                                ),
                                accounts: self.accounts.insert(party, unlocked),
                                ..self
                            },
                        ),
                    ),
                }
            }
        }
    }

    /// The receiver of a token chat rates its payer, once.
    pub open spec fn receiver_token_rate_chat(
        self,
        ctx: ContextView,
        chat_id: Seq<char>,
        rating: bool,
    ) -> Result<ContractView, Fault> {
        if !self.tokenchats.contains_key(chat_id) {
            Err(Fault::ChatNotFound)
        } else if !self.tokenchats[chat_id].is_receiver(ctx.predecessor_account_id)
            || self.tokenchats[chat_id].receiver_has_rated {
            Ok(self)
        } else if !self.accounts.contains_key(self.tokenchats[chat_id].payer) {
            Err(Fault::AccountNotFound)
        } else {
            match (if rating {
                self.accounts[self.tokenchats[chat_id].payer].add_like()
            } else {
                self.accounts[self.tokenchats[chat_id].payer].add_dislike()
            }) {
                Err(e) => Err(e),
                Ok(rated) => Ok(
                    ContractView {
                        tokenchats: self.tokenchats.insert(
                            chat_id,
                            TokenChatView { receiver_has_rated: true, ..self.tokenchats[chat_id] },
                        ),
                        accounts: self.accounts.insert(self.tokenchats[chat_id].payer, rated),
                        ..self
                    },
                ),
            }
        }
    }

    /// The payer of a token chat rates its receiver, once.
    pub open spec fn payer_token_rate_chat(
        self,
        ctx: ContextView,
        chat_id: Seq<char>,
        rating: bool,
    ) -> Result<ContractView, Fault> {
        if !self.tokenchats.contains_key(chat_id) {
            Err(Fault::ChatNotFound)
        } else if !self.tokenchats[chat_id].is_payer(ctx.predecessor_account_id)
            || self.tokenchats[chat_id].payer_has_rated {
            Ok(self)
        } else if !self.accounts.contains_key(self.tokenchats[chat_id].receiver) {
            Err(Fault::AccountNotFound)
        } else {
            match (if rating {
                self.accounts[self.tokenchats[chat_id].receiver].add_like()
            } else {
                self.accounts[self.tokenchats[chat_id].receiver].add_dislike()
            }) {
                Err(e) => Err(e),
                Ok(rated) => Ok(
                    ContractView {
                        tokenchats: self.tokenchats.insert(
                            chat_id,
                            TokenChatView { payer_has_rated: true, ..self.tokenchats[chat_id] },
                        ),
                        accounts: self.accounts.insert(self.tokenchats[chat_id].receiver, rated),
                        ..self
                    },
                ),
            }
        }
    }
}

impl Contract {
    /// Opens a token chat of `owner` over the offer to buy `offer_id`.
    /// Answers `created` where the chat was opened, and otherwise the
    /// reason why it was not.
    pub fn add_token_buy_chat(
        &mut self,
        ctx: &Context,
        id: String,
        offer_id: String,
        token_id: AccountId,
        owner: AccountId,
        amount: u128,
        payer: AccountId,
        receiver: AccountId,
        payment_msg: String,
        trade_cost: u128,
        trade_cost_usd: u128,
    ) -> (r: Result<String, Fault>)
        ensures
            said(
                r,
                *old(self),
                *final(self),
                old(self)@.add_token_buy_chat(
                    ctx@,
                    id@,
                    offer_id@,
                    token_id@,
                    owner@,
                    amount,
                    payer@,
                    receiver@,
                    payment_msg@,
                    trade_cost,
                    trade_cost_usd,
                ),
            ),
            !(r matches Ok(s) && s@ == "created"@) ==> *final(self) == *old(self),
    {
        broadcast use group_views;

        if self.tokenchats.contains_key(&id) {
            return Ok("Chat already exists".to_string());
        }
        let offer = match self.tokenoffers.get(&offer_id) {
            Some(o) => o,
            None => {
                return Ok("Offer not found".to_string());
            },
        };
        if owner == offer.offerer {
            return Ok("You can't chat with yourself".to_string());
        }
        if offer.offer_type != "buy".to_string() {
            return Ok("Offer is not for buy".to_string());
        }
        let initiator = match self.accounts.get(owner.as_string()) {
            Some(a) => a,
            None => {
                return Ok("You must be a registered user to chat with someone".to_string());
            },
        };
        if initiator.balance < trade_cost {
            return Ok("You don't have enough balance to chat with someone".to_string());
        }
        if initiator.get_token_balance(token_id.clone())? < amount {
            return Ok("You don't have enough balance to chat with someone".to_string());
        }
        let mut entry = initiator.clone();
        entry.lock_tokens(token_id.clone(), amount)?;
        entry.lock(trade_cost)?;
        let chat = TokenChat::new(
            id.clone(),
            offer_id,
            token_id,
            owner.clone(),
            offer.offerer.clone(),
            amount,
            trade_cost,
            trade_cost_usd,
            payer,
            receiver,
            payment_msg,
            ctx.block_timestamp,
        );
        self.tokenchats.insert(id, chat);
        self.accounts.insert(owner.to_string(), entry);
        Ok("created".to_string())
    }

    /// Opens a token chat of `owner` over the offer to sell `offer_id`.
    /// Answers `created` where the chat was opened, and otherwise the
    /// reason why it was not.
    pub fn add_token_sell_chat(
        &mut self,
        ctx: &Context,
        id: String,
        offer_id: String,
        token_id: AccountId,
        owner: AccountId,
        amount: u128,
        payer: AccountId,
        receiver: AccountId,
        payment_msg: String,
        trade_cost: u128,
        trade_cost_usd: u128,
    ) -> (r: Result<String, Fault>)
        ensures
            said(
                r,
                *old(self),
                *final(self),
                old(self)@.add_token_sell_chat(
                    ctx@,
                    id@,
                    offer_id@,
                    token_id@,
                    owner@,
                    amount,
                    payer@,
                    receiver@,
                    payment_msg@,
                    trade_cost,
                    trade_cost_usd,
                ),
            ),
            !(r matches Ok(s) && s@ == "created"@) ==> *final(self) == *old(self),
    {
        broadcast use group_views;

        if self.tokenchats.contains_key(&id) {
            return Ok("Chat already exists".to_string());
        }
        let offer = match self.tokenoffers.get(&offer_id) {
            Some(o) => o,
            None => {
                return Ok("Offer not found".to_string());
            },
        };
        if owner == offer.offerer {
            return Ok("You can't chat with yourself".to_string());
        }
        if offer.offer_type != "sell".to_string() {
            return Ok("Offer is not for sell".to_string());
        }
        if !self.accounts.contains_key(owner.as_string()) {
            return Ok("You must be a registered user to chat with someone".to_string());
        }
        let offer_owner = match self.accounts.get(offer.offerer.as_string()) {
            Some(a) => a,
            None => {
                return Err(Fault::AccountNotFound);
            },
        };
        if offer_owner.get_token_balance(token_id.clone())? < amount {
            return Ok("Offerer does not have sufficient balance to hold the trade.".to_string());
        }
        if offer_owner.balance < trade_cost {
            return Ok("Offerer does not have sufficient balance to hold the trade. ".to_string());
        }
        let mut entry = offer_owner.clone();
        entry.lock_tokens(token_id.clone(), amount)?;
        entry.lock(trade_cost)?;
        let offerer = offer.offerer.clone();
        let chat = TokenChat::new(
            id.clone(),
            offer_id,
            token_id,
            owner,
            offerer.clone(),
            amount,
            trade_cost,
            trade_cost_usd,
            payer,
            receiver,
            payment_msg,
            ctx.block_timestamp,
        );
        self.tokenchats.insert(id, chat);
        self.accounts.insert(offerer.to_string(), entry);
        Ok("created".to_string())
    }

    /// A copy of the token chat recorded under `chat_id`.
    pub fn get_token_chat(&self, chat_id: String) -> (r: Option<TokenChat>)
        ensures
            match r {
                Some(c) => self@.tokenchats.contains_key(chat_id@) && c@
                    == self@.tokenchats[chat_id@],
                None => !self@.tokenchats.contains_key(chat_id@),
            },
    {
        broadcast use group_views;

        match self.tokenchats.get(&chat_id) {
            Some(c) => Some(c.clone()),
            None => None,
        }
    }

    /// The token chat recorded under `chat_id` together with its offer.
    pub fn pub_get_token_chat(&self, chat_id: String) -> (r: Result<CompleteTokenChat, Fault>)
        ensures
            match r {
                Ok(c) => self@.tokenchats.contains_key(chat_id@) && c@ == (CompleteTokenChatView {
                    chat: Some(self@.tokenchats[chat_id@]),
                    offer: if self@.tokenoffers.contains_key(
                        self@.tokenchats[chat_id@].offer_id,
                    ) {
                        Some(
                            self@.completed_token_offer(
                                self@.tokenoffers[self@.tokenchats[chat_id@].offer_id],
                            ),
                        )
                    } else {
                        None
                    },
                }),
                Err(e) => !self@.tokenchats.contains_key(chat_id@) && e == Fault::ChatNotFound,
            },
    {
        broadcast use group_views;

        let chat = match self.tokenchats.get(&chat_id) {
            Some(c) => c.clone(),
            None => {
                return Err(Fault::ChatNotFound);
            },
        };
        let offer = self.pub_get_token_offer(chat.offer_id.clone());
        Ok(CompleteTokenChat { chat: Some(chat), offer })
    }

    /// Succeeds where the caller owns the ledger. No chat is removed.
    pub fn remove_token_chat(&self, ctx: &Context) -> (r: Result<(), Fault>)
        ensures
            match r {
                Ok(_) => ctx@.predecessor_account_id == self@.owner_id,
                Err(e) => ctx@.predecessor_account_id != self@.owner_id && e == Fault::NotOwner,
            },
    {
        self.assert_owner(ctx)
    }

    /// The token chats that `account_id` opened or that run over its
    /// offers, in listing order.
    pub fn get_token_account_chats(&self, account_id: AccountId) -> (r: Vec<TokenChat>)
        ensures
            seq_views(r@) == self@.tokenchats.values().filter(
                |c: TokenChatView| c.involves(account_id@),
            ),
    {
        broadcast use group_views;

        proof {
            use_type_invariant(&self.tokenchats);
            self.tokenchats.lemma_listing();
            lemma_views_values(self.tokenchats@);
        }
        let ghost pred = |c: TokenChatView| c.involves(account_id@);
        let ghost all = self@.tokenchats.values();
        let mut out: Vec<TokenChat> = Vec::new();
        let n = self.tokenchats.len();
        let mut i: usize = 0;
        proof {
            lemma_filter_start(all, pred);
        }
        while i < n
            invariant
                i <= n,
                n == self.tokenchats@.len(),
                all == seq_views(self.tokenchats@.values()),
                pred == (|c: TokenChatView| c.involves(account_id@)),
                seq_views(out@) == all.take(i as int).filter(pred),
                i == n && i > 0 ==> all.take(i as int) == all,
            decreases n - i,
        {
            proof {
                lemma_filter_step(all, i as int, pred);
            }
            let chat = self.tokenchats.value_at(i);
            if chat.owner == account_id || chat.offerer == account_id {
                out.push(chat.clone());
            }
            i += 1;
        }
        out
    }

    /// Takes out every token chat.
    pub fn clear_token_chats(&mut self)
        ensures
            final(self)@ == (ContractView { tokenchats: Listing::empty(), ..old(self)@ }),
    {
        broadcast use group_views;

        self.tokenchats.clear();
    }

    /// The payer of an active token chat marks it as paid.
    pub fn mark_token_as_paid(&mut self, ctx: &Context, chat_id: String) -> (r: Result<
        String,
        Fault,
    >)
        ensures
            said(r, *old(self), *final(self), old(self)@.mark_token_as_paid(ctx@, chat_id@)),
    {
        broadcast use group_views;

        let mut chat = match self.tokenchats.get(&chat_id) {
            Some(c) => c.clone(),
            None => {
                return Err(Fault::ChatNotFound);
            },
        };
        if chat.active {
            let _ = chat.mark_as_paid(&ctx.predecessor_account_id);
            self.tokenchats.insert(chat_id, chat);
            Ok("success".to_string())
        } else {
            Ok("chat is not active".to_string())
        }
    }

    /// Stores `chat` under `chat_id` and starts its release: all of it, or
    /// nothing where a fault stands in the way.
    fn release_marked_tokens(&mut self, ctx: &Context, chat_id: String, chat: TokenChat) -> (r:
        Result<TransferRequest, Fault>)
        ensures
            match (ContractView {
                tokenchats: old(self)@.tokenchats.insert(chat_id@, chat@),
                ..old(self)@
            }).release_tokens(ctx@, chat_id@) {
                Ok((transfer, next)) => r matches Ok(t) && t@ == transfer && final(self)@ == next,
                Err(e) => r matches Err(f) && f == e && *final(self) == *old(self),
            },
    {
        broadcast use group_views;

        let ghost start = ContractView {
            tokenchats: old(self)@.tokenchats.insert(chat_id@, chat@),
            ..old(self)@
        };
        let offer = match self.tokenoffers.get(&chat.offer_id) {
            Some(o) => o,
            None => {
                return Err(Fault::OfferNotFound);
            },
        };
        if chat.released {
            return Err(Fault::AlreadyReleased);
        }
        if chat.canceled {
            return Err(Fault::ChatNotActive);
        }
        let buy = offer.offer_type == "buy".to_string();
        let booked_before = chat.fee_booked;
        let mut chat = chat;
        chat.released = true;
        chat.fee_booked = true;
        let (from, to) = if buy {
            (chat.owner.clone(), chat.offerer.clone())
        } else {
            chat.ended_at = Some(ctx.block_timestamp);
            (chat.offerer.clone(), chat.owner.clone())
        };
        let ghost marked = ContractView {
            tokenchats: start.tokenchats.insert(chat_id@, chat@),
            ..start
        };
        assert(marked.tokenchats =~= old(self)@.tokenchats.insert(chat_id@, chat@));
        let request = TransferRequest {
            from: from.clone(),
            to,
            token: chat.token_id.clone(),
            amount: chat.amount,
            chat_id: chat_id.clone(),
        };
        if booked_before {
            self.tokenchats.insert(chat_id, chat);
        } else {
            let plan = self.plan_revenue(
                ctx,
                chat.token_id.to_string(),
                "trade".to_string(),
                &from,
                chat.trade_cost,
                Some(chat.trade_cost_usd),
            )?;
            self.tokenchats.insert(chat_id, chat);
            self.book_revenue(&from, plan);
        }
        Ok(request)
    }

    /// Starts the release of the token chat `chat_id`, once: the chat is
    /// marked as released, the fee is booked as revenue unless it was
    /// booked before, and the transfer that the bridge is to make is
    /// returned. A second release of the same chat is a fault and changes
    /// nothing, unless the bridge has reported a failure in between.
    pub fn release_tokens(&mut self, ctx: &Context, chat_id: String) -> (r: Result<
        TransferRequest,
        Fault,
    >)
        ensures
            match old(self)@.release_tokens(ctx@, chat_id@) {
                Ok((transfer, next)) => r matches Ok(t) && t@ == transfer && final(self)@ == next,
                Err(e) => r matches Err(f) && f == e && *final(self) == *old(self),
            },
            r is Ok ==> final(self)@.tokenchats[chat_id@].released,
    {
        broadcast use group_views;

        let chat = match self.tokenchats.get(&chat_id) {
            Some(c) => c.clone(),
            None => {
                return Err(Fault::ChatNotFound);
            },
        };
        assert(old(self)@.tokenchats.insert(chat_id@, chat@) =~= old(self)@.tokenchats);
        self.release_marked_tokens(ctx, chat_id, chat)
    }

    /// The receiver of an active token chat marks it as received, and the
    /// release is started at once.
    pub fn mark_token_as_received(&mut self, ctx: &Context, chat_id: String) -> (r: Result<
        TokenReceipt,
        Fault,
    >)
        ensures
            match old(self)@.mark_token_as_received(ctx@, chat_id@) {
                Ok((status, transfer, next)) => r matches Ok(receipt) && receipt.status@ == status
                    && (match receipt.transfer {
                    Some(t) => transfer == Some(t@),
                    None => transfer is None,
                }) && final(self)@ == next,
                Err(e) => r matches Err(f) && f == e && *final(self) == *old(self),
            },
            r matches Ok(receipt) && receipt.transfer is None ==> *final(self) == *old(self),
    {
        broadcast use group_views;

        let mut chat = match self.tokenchats.get(&chat_id) {
            Some(c) => c.clone(),
            None => {
                return Err(Fault::ChatNotFound);
            },
        };
        if !chat.active {
            return Ok(TokenReceipt { status: "chat is not active".to_string(), transfer: None });
        }
        if chat.receiver != ctx.predecessor_account_id {
            return Ok(TokenReceipt { status: "success".to_string(), transfer: None });
        }
        chat.received = true;
        let transfer = self.release_marked_tokens(ctx, chat_id, chat)?;
        Ok(TokenReceipt { status: "success".to_string(), transfer: Some(transfer) })
    }

    /// Cancels the token chat `chat_id` and unlocks the traded tokens.
    pub fn cancel_token_chat(&mut self, chat_id: String) -> (r: Result<String, Fault>)
        ensures
            said(r, *old(self), *final(self), old(self)@.cancel_token_chat(chat_id@)),
            !(r matches Ok(s) && s@ == "chat canceled"@) ==> *final(self) == *old(self),
    {
        broadcast use group_views;

        let mut chat = match self.tokenchats.get(&chat_id) {
            Some(c) => c.clone(),
            None => {
                return Err(Fault::ChatNotFound);
            },
        };
        let offer = match self.tokenoffers.get(&chat.offer_id) {
            Some(o) => o,
            None => {
                return Err(Fault::OfferNotFound);
            },
        };
        if !chat.active {
            return Err(Fault::ChatNotActive);
        }
        if chat.released {
            return Err(Fault::AlreadyReleased);
        }
        if chat.paid || chat.received {
            return Ok(
                "Chat cannot be cancelled since its either marked as paid or received".to_string(),
            );
        }
        let party = if offer.offer_type == "buy".to_string() {
            chat.owner.clone()
        } else {
            chat.offerer.clone()
        };
        let mut entry = match self.accounts.get(party.as_string()) {
            Some(a) => a.clone(),
            None => {
                return Err(Fault::AccountNotFound);
            },
        };
        entry.unlock_tokens(chat.token_id.clone(), chat.amount)?;
        let status = chat.mark_as_canceled();
        self.tokenchats.insert(chat_id, chat);
        self.accounts.insert(party.to_string(), entry);
        Ok(status)
    }

    /// The receiver of the token chat rates its payer. Only the first
    /// rating counts.
    pub fn receiver_token_rate_chat(&mut self, ctx: &Context, chat_id: String, rating: bool) -> (r:
        Result<(), Fault>)
        ensures
            done(
                r,
                *old(self),
                *final(self),
                old(self)@.receiver_token_rate_chat(ctx@, chat_id@, rating),
            ),
    {
        broadcast use group_views;

        let mut chat = match self.tokenchats.get(&chat_id) {
            Some(c) => c.clone(),
            None => {
                return Err(Fault::ChatNotFound);
            },
        };
        if ctx.predecessor_account_id != chat.receiver || chat.receiver_has_rated {
            return Ok(());
        }
        let mut entry = match self.accounts.get(chat.payer.as_string()) {
            Some(a) => a.clone(),
            None => {
                return Err(Fault::AccountNotFound);
            },
        };
        if rating {
            entry.add_like()?;
        } else {
            entry.add_dislike()?;
        }
        chat.receiver_has_rated = true;
        let rated = chat.payer.to_string();
        self.tokenchats.insert(chat_id, chat);
        self.accounts.insert(rated, entry);
        Ok(())
    }

    /// The payer of the token chat rates its receiver. Only the first
    /// rating counts.
    pub fn payer_token_rate_chat(&mut self, ctx: &Context, chat_id: String, rating: bool) -> (r:
        Result<(), Fault>)
        ensures
            done(
                r,
                *old(self),
                *final(self),
                old(self)@.payer_token_rate_chat(ctx@, chat_id@, rating),
            ),
    {
        broadcast use group_views;

        let mut chat = match self.tokenchats.get(&chat_id) {
            Some(c) => c.clone(),
            None => {
                return Err(Fault::ChatNotFound);
            },
        };
        if ctx.predecessor_account_id != chat.payer || chat.payer_has_rated {
            return Ok(());
        }
        let mut entry = match self.accounts.get(chat.receiver.as_string()) {
            Some(a) => a.clone(),
            None => {
                return Err(Fault::AccountNotFound);
            },
        };
        if rating {
            entry.add_like()?;
        } else {
            entry.add_dislike()?;
        }
        chat.payer_has_rated = true;
        let rated = chat.receiver.to_string();
        self.tokenchats.insert(chat_id, chat);
        self.accounts.insert(rated, entry);
        Ok(())
    }
}

/// At-most-once release of tokens. Once the release of a token chat has
/// been started, a further release of the same chat is a fault, and a
/// further mark as received either is a fault or asks nothing of the
/// bridge and leaves the ledger as it is.
pub proof fn token_release_at_most_once(
    s: ContractView,
    first: ContextView,
    second: ContextView,
    chat_id: Seq<char>,
)
    ensures
        s.release_tokens(first, chat_id) matches Ok((_, next)) ==> tokens_released_for_good(
            next,
            second,
            chat_id,
        ),
        s.mark_token_as_received(first, chat_id) matches Ok((_, Some(_), next))
            ==> tokens_released_for_good(next, second, chat_id),
{
}

/// No call can start the release of `chat_id` in the ledger `s` again,
/// as long as the bridge reports no failure.
pub open spec fn tokens_released_for_good(
    s: ContractView,
    ctx: ContextView,
    chat_id: Seq<char>,
) -> bool {
    &&& s.tokenchats.contains_key(chat_id)
    &&& s.tokenchats[chat_id].released
    &&& s.release_tokens(ctx, chat_id) matches Err(e) && e == Fault::AlreadyReleased
    &&& match s.mark_token_as_received(ctx, chat_id) {
        Ok((_, transfer, after)) => transfer is None && after == s,
        Err(_) => true,
    }
}

/// A failed transfer takes the release back, and the release can be tried
/// again at no cost. After the bridge has reported a failure for a chat,
/// the chat is marked neither as released nor as received, and every entry
/// and the revenue are as they were, so that the tokens are still locked.
/// When the receiver then marks the chat as received again, the mark
/// succeeds: the chat is received and released, the bridge is asked for
/// the same transfer as before, and no fee is taken a second time.
pub proof fn failed_transfer_reopens(
    s: ContractView,
    first: ContextView,
    report: ContextView,
    retry: ContextView,
    account: Seq<char>,
    token: Seq<char>,
    amount: u128,
    chat_id: Seq<char>,
)
    requires
        retry.predecessor_account_id == first.predecessor_account_id,
    ensures
        s.mark_token_as_received(first, chat_id) matches Ok((_, Some(asked), marked)) ==> (
        marked.withdraw_tokens(
            report,
            account,
            token,
            amount,
            chat_id,
            TransferOutcome::Failed,
        ) matches Ok(reopened) ==> reopened_as_before(marked, reopened, chat_id)
            && retried_for_free(reopened, retry, chat_id, asked)),
        s.release_tokens(first, chat_id) matches Ok((asked, marked)) ==> (marked.withdraw_tokens(
            report,
            account,
            token,
            amount,
            chat_id,
            TransferOutcome::Failed,
        ) matches Ok(reopened) ==> reopened_as_before(marked, reopened, chat_id)
            && released_for_free(reopened, retry, chat_id, asked)),
{
    reveal_strlit("success");
    reveal_strlit("chat is not active");
}

/// Between `s` and `next`, no entry has changed and no fee was booked.
pub open spec fn funds_kept(s: ContractView, next: ContractView) -> bool {
    &&& next.accounts == s.accounts
    &&& next.revenue == s.revenue
    &&& next.revenue_usd == s.revenue_usd
    &&& next.revenues == s.revenues
}

/// The report of a failure has left the chat `chat_id` of `marked` open
/// for another release in `reopened`, and has moved no funds.
pub open spec fn reopened_as_before(
    marked: ContractView,
    reopened: ContractView,
    chat_id: Seq<char>,
) -> bool {
    &&& reopened.tokenchats.contains_key(chat_id)
    &&& !reopened.tokenchats[chat_id].released
    &&& !reopened.tokenchats[chat_id].received
    &&& reopened.tokenchats[chat_id].active == marked.tokenchats[chat_id].active
    &&& funds_kept(marked, reopened)
}

/// In the ledger `s`, a release of the chat `chat_id` succeeds, asks the
/// bridge for the transfer `asked`, and moves no funds.
pub open spec fn released_for_free(
    s: ContractView,
    ctx: ContextView,
    chat_id: Seq<char>,
    asked: TransferRequestView,
) -> bool {
    s.release_tokens(ctx, chat_id) matches Ok((again, last)) && again == asked
        && last.tokenchats[chat_id].released && funds_kept(s, last)
}

/// In the ledger `s`, the mark of the chat `chat_id` as received by the
/// caller of `ctx` succeeds, asks the bridge for the transfer `asked`, and
/// moves no funds.
pub open spec fn retried_for_free(
    s: ContractView,
    ctx: ContextView,
    chat_id: Seq<char>,
    asked: TransferRequestView,
) -> bool {
    s.mark_token_as_received(ctx, chat_id) matches Ok((status, Some(again), last)) && status
        == "success"@ && again == asked && last.tokenchats[chat_id].received
        && last.tokenchats[chat_id].released && funds_kept(s, last)
}

/// Open-chat atomicity for token chats: unless the answer is `created`,
/// the ledger is as it was. A chat that is opened replaces no chat: every
/// chat that there was is as it was.
pub proof fn open_token_chat_atomic(
    s: ContractView,
    ctx: ContextView,
    id: Seq<char>,
    offer_id: Seq<char>,
    token_id: Seq<char>,
    owner: Seq<char>,
    amount: u128,
    payer: Seq<char>,
    receiver: Seq<char>,
    payment_msg: Seq<char>,
    trade_cost: u128,
    trade_cost_usd: u128,
)
    ensures
        s.add_token_buy_chat(
            ctx,
            id,
            offer_id,
            token_id,
            owner,
            amount,
            payer,
            receiver,
            payment_msg,
            trade_cost,
            trade_cost_usd,
        ) matches Ok((status, next)) ==> (status == "created"@ || next == s) && token_chats_evolve(
            s,
            next,
        ) && entries_persist(s, next),
        s.add_token_sell_chat(
            ctx,
            id,
            offer_id,
            token_id,
            owner,
            amount,
            payer,
            receiver,
            payment_msg,
            trade_cost,
            trade_cost_usd,
        ) matches Ok((status, next)) ==> (status == "created"@ || next == s) && token_chats_evolve(
            s,
            next,
        ) && entries_persist(s, next),
{
}

impl TokenChatView {
    /// A chat is never both released and canceled.
    pub open spec fn exclusive(self) -> bool {
        !(self.released && self.canceled)
    }

    /// What may become of a token chat in one step of the engine: it
    /// stays the same chat between the same parties over the same
    /// amounts; what was released, booked, canceled or rated stays so; it
    /// is still not both released and canceled; and it is closed only by
    /// being canceled.
    pub open spec fn evolves_to(self, next: TokenChatView) -> bool {
        &&& next.id == self.id && next.offer_id == self.offer_id && next.token_id == self.token_id
        &&& next.owner == self.owner && next.offerer == self.offerer
        &&& next.payer == self.payer && next.receiver == self.receiver
        &&& next.amount == self.amount && next.trade_cost == self.trade_cost
        &&& self.released ==> next.released
        &&& self.fee_booked ==> next.fee_booked
        &&& self.canceled ==> next.canceled
        &&& self.payer_has_rated ==> next.payer_has_rated
        &&& self.receiver_has_rated ==> next.receiver_has_rated
        &&& self.exclusive() ==> next.exclusive()
        &&& next.active != self.active ==> !next.active && next.canceled
    }
}

/// Every token chat of `s` is in `next`, and has evolved as a chat may.
pub open spec fn token_chats_evolve(s: ContractView, next: ContractView) -> bool {
    forall|k: Seq<char>| #[trigger]
        s.tokenchats.contains_key(k) ==> next.tokenchats.contains_key(k)
            && s.tokenchats[k].evolves_to(next.tokenchats[k])
}

/// The life of a token chat. No step of the engine that follows the
/// opening of a chat takes back a release, a cancellation or a rating,
/// changes the parties or the amounts, or makes a chat both released and
/// canceled. Only the report of a failed transfer takes a release back.
/// No step deletes a chat or the entry of an account.
pub proof fn token_chat_lifecycle(
    s: ContractView,
    ctx: ContextView,
    chat_id: Seq<char>,
    rating: bool,
)
    ensures
        s.mark_token_as_paid(ctx, chat_id) matches Ok((_, next)) ==> token_chats_evolve(s, next)
            && entries_persist(s, next),
        s.mark_token_as_received(ctx, chat_id) matches Ok((_, _, next)) ==> token_chats_evolve(
            s,
            next,
        ) && entries_persist(s, next),
        s.release_tokens(ctx, chat_id) matches Ok((_, next)) ==> token_chats_evolve(s, next)
            && entries_persist(s, next),
        s.cancel_token_chat(chat_id) matches Ok((_, next)) ==> token_chats_evolve(s, next)
            && entries_persist(s, next),
        s.receiver_token_rate_chat(ctx, chat_id, rating) matches Ok(next) ==> token_chats_evolve(
            s,
            next,
        ) && entries_persist(s, next),
        s.payer_token_rate_chat(ctx, chat_id, rating) matches Ok(next) ==> token_chats_evolve(
            s,
            next,
        ) && entries_persist(s, next),
{
}

/// The accounts of a token escrow. Opening a token chat moves the tokens
/// and the fee from the spendable to the locked funds of the party that
/// escrows: the one who opens the chat over an offer to buy, the author of
/// an offer to sell. The first half of a release asks the bridge to move
/// the tokens of that same party, books the fee as revenue unless it was
/// booked before, and leaves the tokens locked; a cancellation unlocks the
/// tokens of that same party; the report of a successful transfer takes
/// the tokens out of the ledger. No step touches the entry of anyone else.
pub proof fn token_escrow_accounting(
    s: ContractView,
    ctx: ContextView,
    id: Seq<char>,
    offer_id: Seq<char>,
    token_id: Seq<char>,
    owner: Seq<char>,
    amount: u128,
    payer: Seq<char>,
    receiver: Seq<char>,
    payment_msg: Seq<char>,
    trade_cost: u128,
    trade_cost_usd: u128,
)
    ensures
        s.add_token_buy_chat(
            ctx,
            id,
            offer_id,
            token_id,
            owner,
            amount,
            payer,
            receiver,
            payment_msg,
            trade_cost,
            trade_cost_usd,
        ) matches Ok((status, next)) ==> (status == "created"@ ==> locked_for_trade(
            s,
            next,
            owner,
            token_id,
            amount,
            trade_cost,
        ) && next.token_escrow_party(id) == owner),
        s.add_token_sell_chat(
            ctx,
            id,
            offer_id,
            token_id,
            owner,
            amount,
            payer,
            receiver,
            payment_msg,
            trade_cost,
            trade_cost_usd,
        ) matches Ok((status, next)) ==> (status == "created"@ ==> locked_for_trade(
            s,
            next,
            s.tokenoffers[offer_id].offerer,
            token_id,
            amount,
            trade_cost,
        ) && next.token_escrow_party(id) == s.tokenoffers[offer_id].offerer),
        s.release_tokens(ctx, id) matches Ok((transfer, next)) ==> handed_to_bridge(
            s,
            next,
            id,
            transfer,
        ),
        s.cancel_token_chat(id) matches Ok((status, next)) ==> (status == "chat canceled"@
            ==> s.accounts.contains_key(s.token_escrow_party(id)) && held(
            next.accounts[s.token_escrow_party(id)].tokens,
            s.tokenchats[id].token_id,
        ) == held(s.accounts[s.token_escrow_party(id)].tokens, s.tokenchats[id].token_id)
            + s.tokenchats[id].amount && held(
            next.accounts[s.token_escrow_party(id)].locked_tokens,
            s.tokenchats[id].token_id,
        ) == held(s.accounts[s.token_escrow_party(id)].locked_tokens, s.tokenchats[id].token_id)
            - s.tokenchats[id].amount && next.accounts[s.token_escrow_party(id)].balance
            == s.accounts[s.token_escrow_party(id)].balance
            && next.accounts[s.token_escrow_party(id)].locked
            == s.accounts[s.token_escrow_party(id)].locked && next.revenue == s.revenue
            && others_kept(s, next, s.token_escrow_party(id))),
        s.withdraw_tokens(
            ctx,
            payer,
            token_id,
            amount,
            id,
            TransferOutcome::Successful,
        ) matches Ok(next) ==> s.accounts.contains_key(payer) && held(
            next.accounts[payer].locked_tokens,
            token_id,
        ) == held(s.accounts[payer].locked_tokens, token_id) - amount && held(
            next.accounts[payer].tokens,
            token_id,
        ) == held(s.accounts[payer].tokens, token_id) && next.accounts[payer].total()
            == s.accounts[payer].total() && next.revenue == s.revenue && others_kept(
            s,
            next,
            payer,
        ),
{
    reveal_strlit("buy");
    reveal_strlit("sell");
    assert("buy"@.len() == 3);
    assert("sell"@.len() == 4);
    reveal_strlit("created");
    reveal_strlit("Chat already exists");
    reveal_strlit("Offer not found");
    reveal_strlit("You can't chat with yourself");
    reveal_strlit("Offer is not for buy");
    reveal_strlit("Offer is not for sell");
    reveal_strlit("You must be a registered user to chat with someone");
    reveal_strlit("You don't have enough balance to chat with someone");
    reveal_strlit("Offerer does not have sufficient balance to hold the trade.");
    reveal_strlit("Offerer does not have sufficient balance to hold the trade. ");
    reveal_strlit("chat canceled");
    reveal_strlit("Chat cannot be cancelled since its either marked as paid or received");
    assert("created"@.len() == 7);
    assert("Chat already exists"@.len() == 19);
    assert("Offer not found"@.len() == 15);
    assert("You can't chat with yourself"@.len() == 28);
    assert("Offer is not for buy"@.len() == 20);
    assert("Offer is not for sell"@.len() == 21);
    assert("You must be a registered user to chat with someone"@.len() == 50);
    assert("You don't have enough balance to chat with someone"@.len() == 50);
    assert("Offerer does not have sufficient balance to hold the trade."@.len() == 59);
    assert("Offerer does not have sufficient balance to hold the trade. "@.len() == 60);
    assert("chat canceled"@.len() == 13);
    assert("Chat cannot be cancelled since its either marked as paid or received"@.len() == 68);
}

/// Between `s` and `next`, the escrow of the token chat `id` was handed to
/// the bridge: the transfer asked for moves the traded tokens from the
/// party that escrowed them to the other party; the fee, unless it was
/// booked before, is gone from the locked funds of the escrowing party and
/// added to the revenue; the tokens are still locked; no other entry has
/// changed.
pub open spec fn handed_to_bridge(
    s: ContractView,
    next: ContractView,
    id: Seq<char>,
    transfer: TransferRequestView,
) -> bool {
    let chat = s.tokenchats[id];
    let party = s.token_escrow_party(id);
    &&& transfer.from == party
    &&& transfer.to == s.token_counterparty(id)
    &&& transfer.token == chat.token_id
    &&& transfer.amount == chat.amount
    &&& transfer.chat_id == id
    &&& next.tokenchats[id].released && next.tokenchats[id].fee_booked
    &&& if chat.fee_booked {
        funds_kept(s, next)
    } else {
        &&& s.accounts.contains_key(party)
        &&& next.revenue == s.revenue + chat.trade_cost
        &&& next.revenues.len() == s.revenues.len() + 1
        &&& next.accounts[party].locked == s.accounts[party].locked - chat.trade_cost
        &&& next.accounts[party].balance == s.accounts[party].balance
        &&& next.accounts[party].tokens == s.accounts[party].tokens
        &&& next.accounts[party].locked_tokens == s.accounts[party].locked_tokens
        &&& others_kept(s, next, party)
    }
}

/// Between `s` and `next`, no entry but that of `party` has changed.
pub open spec fn others_kept(s: ContractView, next: ContractView, party: Seq<char>) -> bool {
    forall|k: Seq<char>|
        k != party ==> next.accounts.contains_key(k) == s.accounts.contains_key(k) && (
        s.accounts.contains_key(k) ==> next.accounts[k] == s.accounts[k])
}

/// Between `s` and `next`, `amount` of `token` and the fee have moved from
/// the spendable to the locked funds of `party`, and no other entry has
/// changed.
pub open spec fn locked_for_trade(
    s: ContractView,
    next: ContractView,
    party: Seq<char>,
    token: Seq<char>,
    amount: u128,
    fee: u128,
) -> bool {
    &&& s.accounts.contains_key(party) && next.accounts.contains_key(party)
    &&& held(next.accounts[party].tokens, token) == held(s.accounts[party].tokens, token) - amount
    &&& held(next.accounts[party].locked_tokens, token) == held(
        s.accounts[party].locked_tokens,
        token,
    ) + amount
    &&& next.accounts[party].balance == s.accounts[party].balance - fee
    &&& next.accounts[party].locked == s.accounts[party].locked + fee
    &&& next.revenue == s.revenue
    &&& others_kept(s, next, party)
}

} // verus!
