//! Chats over offers in the native currency: the record of a negotiation
//! and the steps that open it, mark its progress, cancel it, release its
//! escrow and rate its parties.
use crate::account::{entries_persist, Payout, PayoutView};
use crate::account_id::AccountId;
use crate::errors::Fault;
use crate::fee::{compute_escrow, escrow, trade_cost};
use crate::offer::{is_buy, is_sell, CompleteOffer, CompleteOfferView};
use crate::registry::{
    group_views, lemma_filter_start, lemma_filter_step, lemma_views_values, seq_views, Listing,
};
use crate::{done, said, Context, ContextView, Contract, ContractView};
use vstd::prelude::*;

verus! {

/// A chat as a mathematical value.
pub struct ChatView {
    pub id: Seq<char>,
    pub offer_id: Seq<char>,
    pub owner: Seq<char>,
    pub offerer: Seq<char>,
    pub amount: u128,
    pub trade_cost: u128,
    pub started_at: u64,
    pub ended_at: Option<u64>,
    pub active: bool,
    pub payer: Seq<char>,
    pub receiver: Seq<char>,
    pub paid: bool,
    pub received: bool,
    pub canceled: bool,
    pub released: bool,
    pub payer_has_rated: bool,
    pub receiver_has_rated: bool,
    pub payment_msg: Seq<char>,
    pub created_on: u64,
    pub updated_on: Option<u64>,
}

/// The record of one negotiation over an offer in the native currency.
#[derive(Debug)]
pub struct Chat {
    pub id: String,
    pub offer_id: String,
    /// The account that opened the chat.
    pub owner: AccountId,
    /// The account that wrote the offer.
    pub offerer: AccountId,
    /// The quantity that is traded.
    pub amount: u128,
    /// The fee for the trade.
    pub trade_cost: u128,
    pub started_at: u64,
    pub ended_at: Option<u64>,
    pub active: bool,
    /// The account that pays the leg outside the ledger.
    pub payer: AccountId,
    /// The account that receives the leg outside the ledger.
    pub receiver: AccountId,
    pub paid: bool,
    pub received: bool,
    pub canceled: bool,
    pub released: bool,
    pub payer_has_rated: bool,
    pub receiver_has_rated: bool,
    pub payment_msg: String,
    pub created_on: u64,
    pub updated_on: Option<u64>,
}

impl View for Chat {
    type V = ChatView;

    open spec fn view(&self) -> ChatView {
        ChatView {
            id: self.id@,
            offer_id: self.offer_id@,
            owner: self.owner@,
            offerer: self.offerer@,
            amount: self.amount,
            trade_cost: self.trade_cost,
            started_at: self.started_at,
            ended_at: self.ended_at,
            active: self.active,
            payer: self.payer@,
            receiver: self.receiver@,
            paid: self.paid,
            received: self.received,
            canceled: self.canceled,
            released: self.released,
            payer_has_rated: self.payer_has_rated,
            receiver_has_rated: self.receiver_has_rated,
            payment_msg: self.payment_msg@,
            created_on: self.created_on,
            updated_on: self.updated_on,
        }
    }
}

impl Clone for Chat {
    fn clone(&self) -> (r: Self)
        ensures
            r@ == self@,
    {
        Chat {
            id: self.id.clone(),
            offer_id: self.offer_id.clone(),
            owner: self.owner.clone(),
            offerer: self.offerer.clone(),
            amount: self.amount,
            trade_cost: self.trade_cost,
            started_at: self.started_at,
            ended_at: self.ended_at,
            active: self.active,
            payer: self.payer.clone(),
            receiver: self.receiver.clone(),
            paid: self.paid,
            received: self.received,
            canceled: self.canceled,
            released: self.released,
            payer_has_rated: self.payer_has_rated,
            receiver_has_rated: self.receiver_has_rated,
            payment_msg: self.payment_msg.clone(),
            created_on: self.created_on,
            updated_on: self.updated_on,
        }
    }
}
/// A complete chat as a mathematical value.
pub struct CompleteChatView {
    pub chat: Option<ChatView>,
    pub offer: Option<CompleteOfferView>,
}

/// A chat together with its offer.
#[derive(Debug)]
pub struct CompleteChat {
    pub chat: Option<Chat>,
    pub offer: Option<CompleteOffer>,
}

impl View for CompleteChat {
    type V = CompleteChatView;

    open spec fn view(&self) -> CompleteChatView {
        CompleteChatView {
            chat: match self.chat {
                Some(x) => Some(x@),
                None => None,
            },
            offer: match self.offer {
                Some(x) => Some(x@),
                None => None,
            },
        }
    }
}

impl Clone for CompleteChat {
    fn clone(&self) -> (r: Self)
        ensures
            r@ == self@,
    {
        CompleteChat {
            chat: match &self.chat {
                Some(x) => Some(x.clone()),
                None => None,
            },
            offer: match &self.offer {
                Some(x) => Some(x.clone()),
                None => None,
            },
        }
    }
}
impl ChatView {
    /// A chat as it is opened at time `now`: active, with no step taken.
    pub open spec fn fresh(
        id: Seq<char>,
        offer_id: Seq<char>,
        owner: Seq<char>,
        offerer: Seq<char>,
        amount: u128,
        trade_cost: u128,
        payer: Seq<char>,
        receiver: Seq<char>,
        payment_msg: Seq<char>,
        now: u64,
    ) -> ChatView {
        ChatView {
            id,
            offer_id,
            owner,
            offerer,
            amount,
            trade_cost,
            started_at: now,
            ended_at: None,
            active: true,
            payer,
            receiver,
            paid: false,
            received: false,
            canceled: false,
            released: false,
            payer_has_rated: false,
            receiver_has_rated: false,
            payment_msg,
            created_on: now,
            updated_on: Some(now),
        }
    }

    /// Whether `account` opened the chat or wrote its offer.
    pub open spec fn involves(self, account: Seq<char>) -> bool {
        self.owner == account || self.offerer == account
    }

    /// Whether `caller` is the one who may mark the chat as paid.
    pub open spec fn is_payer(self, caller: Seq<char>) -> bool {
        self.payer == caller
    }

    /// Whether `caller` is the one who may mark the chat as received.
    pub open spec fn is_receiver(self, caller: Seq<char>) -> bool {
        self.receiver == caller
    }

    /// The payer marks the chat as paid; anyone else changes nothing.
    pub open spec fn mark_as_paid(self, caller: Seq<char>) -> ChatView {
        if self.is_payer(caller) {
            ChatView { paid: true, ..self }
        } else {
            self
        }
    }

    /// The receiver marks the chat as received; anyone else changes
    /// nothing.
    pub open spec fn mark_as_received(self, caller: Seq<char>) -> ChatView {
        if self.is_receiver(caller) {
            ChatView { received: true, ..self }
        } else {
            self
        }
    }

    /// Whether the chat can still be canceled: nothing was paid or
    /// received.
    pub open spec fn cancelable(self) -> bool {
        !self.paid && !self.received
    }

    /// The chat is canceled and closed if it can still be canceled.
    pub open spec fn mark_as_canceled(self) -> ChatView {
        if self.cancelable() {
            ChatView { canceled: true, active: false, ..self }
        } else {
            self
        }
    }
}

impl Chat {
    /// A chat as it is opened at time `now`: active, with no step taken.
    pub fn new(
        id: String,
        offer_id: String,
        owner: AccountId,
        offerer: AccountId,
        amount: u128,
        trade_cost: u128,
        payer: AccountId,
        receiver: AccountId,
        payment_msg: String,
        now: u64,
    ) -> (r: Self)
        ensures
            r@ == ChatView::fresh(
                id@,
                offer_id@,
                owner@,
                offerer@,
                amount,
                trade_cost,
                payer@,
                receiver@,
                payment_msg@,
                now,
            ),
    {
        Self {
            id,
            offer_id,
            owner,
            offerer,
            amount,
            trade_cost,
            started_at: now,
            ended_at: None,
            active: true,
            payer,
            receiver,
            paid: false,
            received: false,
            canceled: false,
            released: false,
            payer_has_rated: false,
            receiver_has_rated: false,
            payment_msg,
            created_on: now,
            updated_on: Some(now),
        }
    }

    /// Sets the end of the chat to `now`.
    pub fn update_ended_at(&mut self, now: u64)
        ensures
            final(self)@ == (ChatView { ended_at: Some(now), ..old(self)@ }),
    {
        self.ended_at = Some(now);
    }

    /// Opens or closes the chat.
    pub fn update_active_status(&mut self, active: bool)
        ensures
            final(self)@ == (ChatView { active, ..old(self)@ }),
    {
        self.active = active;
    }

    /// Marks the chat as paid if `caller` is its payer, and says whether
    /// it did.
    pub fn mark_as_paid(&mut self, caller: &AccountId) -> (r: String)
        ensures
            final(self)@ == old(self)@.mark_as_paid(caller@),
            r@ == (if old(self)@.is_payer(caller@) {
                "success"@
            } else {
                "failed"@
            }),
    {
        if self.payer == *caller {
            self.paid = true;
            return "success".to_string();
        }
        "failed".to_string()
    }

    /// Marks the chat as received if `caller` is its receiver, and says
    /// whether it did.
    pub fn mark_as_received(&mut self, caller: &AccountId) -> (r: String)
        ensures
            final(self)@ == old(self)@.mark_as_received(caller@),
            r@ == (if old(self)@.is_receiver(caller@) {
                "success"@
            } else {
                "failed"@
            }),
    {
        if self.receiver == *caller {
            self.received = true;
            return "success".to_string();
        }
        "failed".to_string()
    }

    /// Marks the escrow of the chat as released. The mark is never taken
    /// back by the chat itself.
    pub fn mark_as_released(&mut self)
        ensures
            final(self)@ == (ChatView { released: true, ..old(self)@ }),
    {
        self.released = true;
    }

    /// Cancels and closes the chat unless it was marked as paid or as
    /// received, and says which.
    pub fn mark_as_canceled(&mut self) -> (r: String)
        ensures
            final(self)@ == old(self)@.mark_as_canceled(),
            r@ == (if old(self)@.cancelable() {
                "chat canceled"@
            } else {
                "Chat cannot be cancelled since its either marked as paid or received"@
            }),
    {
        if self.paid == false && self.received == false {
            self.canceled = true;
            self.active = false;
            return "chat canceled".to_string();
        } else {
            return "Chat cannot be cancelled since its either marked as paid or received".to_string();
        }
    }
}

/// What marking a chat as received answers: a text, and the payout that is
/// owed where the mark released the escrow.
#[derive(Debug)]
pub struct Receipt {
    pub status: String,
    pub payout: Option<Payout>,
}

impl ContractView {
    /// Opens a chat of `owner` over an offer to buy. The fee is the
    /// ledger's rate on `amount`; the amount and the fee are locked in the
    /// entry of `owner`. An id that is in use is refused. Every refusal
    /// leaves the ledger as it was.
    pub open spec fn add_buy_chat(
        self,
        ctx: ContextView,
        id: Seq<char>,
        offer_id: Seq<char>,
        owner: Seq<char>,
        amount: u128,
        payer: Seq<char>,
        receiver: Seq<char>,
        payment_msg: Seq<char>,
    ) -> Result<(Seq<char>, ContractView), Fault> {
        if self.chats.contains_key(id) {
            Ok(("Chat already exists"@, self))
        } else if !self.offers.contains_key(offer_id) {
            Ok(("Offer not found"@, self))
        } else if owner == self.offers[offer_id].offerer {
            Ok(("You can't chat with yourself"@, self))
        } else if !is_buy(self.offers[offer_id].offer_type) {
            Ok(("Offer is not for buy"@, self))
        } else if !self.accounts.contains_key(owner) {
            Ok(("You must be a registered user to chat with someone"@, self))
        } else if self.accounts[owner].balance < escrow(self.send_cost, amount) {
            Ok(("You don't have enough balance to chat with someone"@, self))
        } else {
            match self.accounts[owner].lock(escrow(self.send_cost, amount) as u128) {
                Err(e) => Err(e),
                Ok(locked) => Ok(
                    (
                        "created"@,
                        ContractView {
                            chats: self.chats.insert(
                                id,
                                ChatView::fresh(
                                    id,
                                    offer_id,
                                    owner,
                                    self.offers[offer_id].offerer,
                                    amount,
                                    trade_cost(self.send_cost, amount) as u128,
                                    payer,
                                    receiver,
                                    payment_msg,
                                    ctx.block_timestamp,
                                ),
                            ),
                            accounts: self.accounts.insert(owner, locked),
                            ..self
                        },
                    ),
                ),
            }
        }
    }

    /// Opens a chat of `owner`, who must be registered, over an offer to
    /// sell. The amount and the fee are locked in the entry of the offer's
    /// author. An id that is in use is refused.
    pub open spec fn add_sell_chat(
        self,
        ctx: ContextView,
        id: Seq<char>,
        offer_id: Seq<char>,
        owner: Seq<char>,
        amount: u128,
        payer: Seq<char>,
        receiver: Seq<char>,
        payment_msg: Seq<char>,
    ) -> Result<(Seq<char>, ContractView), Fault> {
        if self.chats.contains_key(id) {
            Ok(("Chat already exists"@, self))
        } else if !self.offers.contains_key(offer_id) {
            Ok(("Offer not found"@, self))
        } else if owner == self.offers[offer_id].offerer {
            Ok(("You can't chat with yourself"@, self))
        } else if !is_sell(self.offers[offer_id].offer_type) {
            Ok(("Offer is not for sell"@, self))
        } else if !self.accounts.contains_key(owner) {
            Ok(("You must be a registered user to chat with someone"@, self))
        } else if !self.accounts.contains_key(self.offers[offer_id].offerer) {
            Err(Fault::AccountNotFound)
        } else if self.accounts[self.offers[offer_id].offerer].balance < escrow(
            self.send_cost,
            amount,
        ) {
            Ok(("Offerer does not have sufficient balance to hold the trade. "@, self))
        } else {
            match self.accounts[self.offers[offer_id].offerer].lock(
                escrow(self.send_cost, amount) as u128,
            ) {
                Err(e) => Err(e),
                Ok(locked) => Ok(
                    (
                        "created"@,
                        ContractView {
                            chats: self.chats.insert(
                                id,
                                ChatView::fresh(
                                    id,
                                    offer_id,
                                    owner,
                                    self.offers[offer_id].offerer,
                                    amount,
                                    trade_cost(self.send_cost, amount) as u128,
                                    payer,
                                    receiver,
                                    payment_msg,
                                    ctx.block_timestamp,
                                ),
                            ),
                            accounts: self.accounts.insert(self.offers[offer_id].offerer, locked),
                            ..self
                        },
                    ),
                ),
            }
        }
    }

    /// The payer of an active chat marks it as paid. Anyone else who asks
    /// changes nothing.
    pub open spec fn mark_as_paid(self, ctx: ContextView, chat_id: Seq<char>) -> Result<
        (Seq<char>, ContractView),
        Fault,
    > {
        if !self.chats.contains_key(chat_id) {
            Err(Fault::ChatNotFound)
        } else if !self.chats[chat_id].active {
            Ok(("chat is not active"@, self))
        } else {
            Ok(
                (
                    "success"@,
                    ContractView {
                        chats: self.chats.insert(
                            chat_id,
                            self.chats[chat_id].mark_as_paid(ctx.predecessor_account_id),
                        ),
                        ..self
                    },
                ),
            )
        }
    }

    /// Releases the escrow of a chat, once, unless the chat was canceled.
    /// The fee is taken from the
    /// receiver of a chat over an offer to buy and from the payer of any
    /// other, and booked as revenue; then the traded amount is released
    /// from the entry that escrowed it and owed to the other party.
    pub open spec fn release_near(self, ctx: ContextView, chat_id: Seq<char>) -> Result<
        (PayoutView, ContractView),
        Fault,
    > {
        if !self.chats.contains_key(chat_id) {
            Err(Fault::ChatNotFound)
        } else if !self.offers.contains_key(self.chats[chat_id].offer_id) {
            Err(Fault::OfferNotFound)
        } else if self.chats[chat_id].released {
            Err(Fault::AlreadyReleased)
        } else if self.chats[chat_id].canceled {
            Err(Fault::ChatNotActive)
        } else {
            let chat = self.chats[chat_id];
            let buy = is_buy(self.offers[chat.offer_id].offer_type);
            let fee_payer = if buy {
                chat.receiver
            } else {
                chat.payer
            };
            let from = if buy {
                chat.owner
            } else {
                chat.offerer
            };
            let to = if buy {
                chat.offerer
            } else {
                chat.owner
            };
            let marked = ContractView {
                chats: self.chats.insert(
                    chat_id,
                    ChatView {
                        released: true,
                        ended_at: if buy {
                            chat.ended_at
                        } else {
                            Some(ctx.block_timestamp)
                        },
                        ..chat
                    },
                ),
                ..self
            };
            match marked.create_revenue(ctx, "near"@, "trade"@, fee_payer, chat.trade_cost, None) {
                Err(e) => Err(e),
                Ok(booked) => if !booked.accounts.contains_key(from) {
                    Err(Fault::AccountNotFound)
                } else {
                    match booked.accounts[from].release(ctx.predecessor_account_id, chat.amount) {
                        Err(e) => Err(e),
                        Ok(released) => Ok(
                            (
                                PayoutView { to, amount: chat.amount },
                                ContractView {
                                    accounts: booked.accounts.insert(from, released),
                                    ..booked
                                },
                            ),
                        ),
                    }
                },
            }
        }
    }

    /// The receiver of an active chat marks it as received, which
    /// releases the escrow at once. Anyone else who asks changes nothing.
    pub open spec fn mark_as_received(self, ctx: ContextView, chat_id: Seq<char>) -> Result<
        (Seq<char>, Option<PayoutView>, ContractView),
        Fault,
    > {
        if !self.chats.contains_key(chat_id) {
            Err(Fault::ChatNotFound)
        } else if !self.chats[chat_id].active {
            Ok(("chat is not active"@, None, self))
        } else if !self.chats[chat_id].is_receiver(ctx.predecessor_account_id) {
            Ok(("success"@, None, self))
        } else {
            match (ContractView {
                chats: self.chats.insert(
                    chat_id,
                    ChatView { received: true, ..self.chats[chat_id] },
                ),
                ..self
            }).release_near(ctx, chat_id) {
                Err(e) => Err(e),
                Ok((payout, next)) => Ok(("success"@, Some(payout), next)),
            }
        }
    }

    /// Cancels an active chat on which nothing was paid or received: the
    /// traded amount goes back from the locked to the spendable funds of
    /// the party that escrowed it (the one who opened the chat over an
    /// offer to buy, the author of any other offer), and the chat is closed. A chat that is
    /// closed already, or released, cannot be canceled.
    pub open spec fn cancel_chat(self, chat_id: Seq<char>) -> Result<
        (Seq<char>, ContractView),
        Fault,
    > {
        if !self.chats.contains_key(chat_id) {
            Err(Fault::ChatNotFound)
        } else if !self.offers.contains_key(self.chats[chat_id].offer_id) {
            Err(Fault::OfferNotFound)
        } else if !self.chats[chat_id].active {
            Err(Fault::ChatNotActive)
        } else if self.chats[chat_id].released {
            Err(Fault::AlreadyReleased)
        } else if !self.chats[chat_id].cancelable() {
            Ok(("Chat cannot be cancelled since its either marked as paid or received"@, self))
        } else {
            let chat = self.chats[chat_id];
            let offer = self.offers[chat.offer_id];
            let party = if is_buy(offer.offer_type) {
                chat.owner
            } else {
                chat.offerer
            };
            if !self.accounts.contains_key(party) {
                Err(Fault::AccountNotFound)
            } else {
                match self.accounts[party].unlock(chat.amount) {
                    Err(e) => Err(e),
                    Ok(unlocked) => Ok(
                        (
                            "chat canceled"@,
                            ContractView {
                                chats: self.chats.insert(chat_id, chat.mark_as_canceled()),
                                accounts: self.accounts.insert(party, unlocked),
                                ..self
                            },
                        ),
                    ),
                }
            }
        }
    }

    /// The receiver of a chat rates its payer, once: the payer gains a
    /// like or a dislike. A second rating, and a rating by anyone else,
    /// changes nothing.
    pub open spec fn receiver_rate_chat(
        self,
        ctx: ContextView,
        chat_id: Seq<char>,
        rating: bool,
    ) -> Result<ContractView, Fault> {
        if !self.chats.contains_key(chat_id) {
            Err(Fault::ChatNotFound)
        } else if !self.chats[chat_id].is_receiver(ctx.predecessor_account_id)
            || self.chats[chat_id].receiver_has_rated {
            Ok(self)
        } else if !self.accounts.contains_key(self.chats[chat_id].payer) {
            Err(Fault::AccountNotFound)
        } else {
            match (if rating {
                self.accounts[self.chats[chat_id].payer].add_like()
            } else {
                self.accounts[self.chats[chat_id].payer].add_dislike()
            }) {
                Err(e) => Err(e),
                Ok(rated) => Ok(
                    ContractView {
                        chats: self.chats.insert(
                            chat_id,
                            ChatView { receiver_has_rated: true, ..self.chats[chat_id] },
                        ),
                        accounts: self.accounts.insert(self.chats[chat_id].payer, rated),
                        ..self
                    },
                ),
            }
        }
    }

    /// The payer of a chat rates its receiver, once.
    pub open spec fn payer_rate_chat(
        self,
        ctx: ContextView,
        chat_id: Seq<char>,
        rating: bool,
    ) -> Result<ContractView, Fault> {
        if !self.chats.contains_key(chat_id) {
            Err(Fault::ChatNotFound)
        } else if !self.chats[chat_id].is_payer(ctx.predecessor_account_id)
            || self.chats[chat_id].payer_has_rated {
            Ok(self)
        } else if !self.accounts.contains_key(self.chats[chat_id].receiver) {
            Err(Fault::AccountNotFound)
        } else {
            match (if rating {
                self.accounts[self.chats[chat_id].receiver].add_like()
            } else {
                self.accounts[self.chats[chat_id].receiver].add_dislike()
            }) {
                Err(e) => Err(e),
                Ok(rated) => Ok(
                    ContractView {
                        chats: self.chats.insert(
                            chat_id,
                            ChatView { payer_has_rated: true, ..self.chats[chat_id] },
                        ),
                        accounts: self.accounts.insert(self.chats[chat_id].receiver, rated),
                        ..self
                    },
                ),
            }
        }
    }
}

impl Contract {
    /// Opens a chat of `owner` over the offer to buy `offer_id`, for
    /// `amount`. Answers `created` where the chat was opened, and
    /// otherwise the reason why it was not.
    pub fn add_buy_chat(
        &mut self,
        ctx: &Context,
        id: String,
        offer_id: String,
        owner: AccountId,
        amount: u128,
        payer: AccountId,
        receiver: AccountId,
        payment_msg: String,
    ) -> (r: Result<String, Fault>)
        ensures
            said(
                r,
                *old(self),
                *final(self),
                old(self)@.add_buy_chat(
                    ctx@,
                    id@,
                    offer_id@,
                    owner@,
                    amount,
                    payer@,
                    receiver@,
                    payment_msg@,
                ),
            ),
            !(r matches Ok(s) && s@ == "created"@) ==> *final(self) == *old(self),
    {
        broadcast use group_views;

        if self.chats.contains_key(&id) {
            return Ok("Chat already exists".to_string());
        }
        let offer = match self.offers.get(&offer_id) {
            Some(o) => o,
            None => {
                return Ok("Offer not found".to_string());
            },
        };
        if owner == offer.offerer {
            return Ok("You can't chat with yourself".to_string());
        }
        if offer.offer_type != "buy".to_string() {
            return Ok("Offer is not for buy".to_string());
        }
        let initiator = match self.accounts.get(owner.as_string()) {
            Some(a) => a,
            None => {
                return Ok("You must be a registered user to chat with someone".to_string());
            },
        };
        let (cost, total) = match compute_escrow(self.send_cost, amount) {
            Some(pair) => pair,
            None => {
                return Ok("You don't have enough balance to chat with someone".to_string());
            },
        };
        if initiator.balance < total {
            return Ok("You don't have enough balance to chat with someone".to_string());
        }
        let mut entry = initiator.clone();
        entry.lock(total)?;
        let chat = Chat::new(
            id.clone(),
            offer_id,
            owner.clone(),
            offer.offerer.clone(),
            amount,
            cost,
            payer,
            receiver,
            payment_msg,
            ctx.block_timestamp,
        );
        self.chats.insert(id, chat);
        self.accounts.insert(owner.to_string(), entry);
        Ok("created".to_string())
    }

    /// Opens a chat of `owner` over the offer to sell `offer_id`, for
    /// `amount`. Answers `created` where the chat was opened, and
    /// otherwise the reason why it was not.
    pub fn add_sell_chat(
        &mut self,
        ctx: &Context,
        id: String,
        offer_id: String,
        owner: AccountId,
        amount: u128,
        payer: AccountId,
        receiver: AccountId,
        payment_msg: String,
    ) -> (r: Result<String, Fault>)
        ensures
            said(
                r,
                *old(self),
                *final(self),
                old(self)@.add_sell_chat(
                    ctx@,
                    id@,
                    offer_id@,
                    owner@,
                    amount,
                    payer@,
                    receiver@,
                    payment_msg@,
                ),
            ),
            !(r matches Ok(s) && s@ == "created"@) ==> *final(self) == *old(self),
    {
        broadcast use group_views;

        if self.chats.contains_key(&id) {
            return Ok("Chat already exists".to_string());
        }
        let offer = match self.offers.get(&offer_id) {
            Some(o) => o,
            None => {
                return Ok("Offer not found".to_string());
            },
        };
        if owner == offer.offerer {
            return Ok("You can't chat with yourself".to_string());
        }
        if offer.offer_type != "sell".to_string() {
            return Ok("Offer is not for sell".to_string());
        }
        if !self.accounts.contains_key(owner.as_string()) {
            return Ok("You must be a registered user to chat with someone".to_string());
        }
        let offer_owner = match self.accounts.get(offer.offerer.as_string()) {
            Some(a) => a,
            None => {
                return Err(Fault::AccountNotFound);
            },
        };
        let (cost, total) = match compute_escrow(self.send_cost, amount) {
            Some(pair) => pair,
            None => {
                return Ok(
                    "Offerer does not have sufficient balance to hold the trade. ".to_string(),
                );
            },
        };
        if offer_owner.balance < total {
            return Ok("Offerer does not have sufficient balance to hold the trade. ".to_string());
        }
        let mut entry = offer_owner.clone();
        entry.lock(total)?;
        let offerer = offer.offerer.clone();
        let chat = Chat::new(
            id.clone(),
            offer_id,
            owner,
            offerer.clone(),
            amount,
            cost,
            payer,
            receiver,
            payment_msg,
            ctx.block_timestamp,
        );
        self.chats.insert(id, chat);
        self.accounts.insert(offerer.to_string(), entry);
        Ok("created".to_string())
    }

    /// A copy of the chat recorded under `chat_id`.
    pub fn get_chat(&self, chat_id: String) -> (r: Option<Chat>)
        ensures
            match r {
                Some(c) => self@.chats.contains_key(chat_id@) && c@ == self@.chats[chat_id@],
                None => !self@.chats.contains_key(chat_id@),
            },
    {
        broadcast use group_views;

        match self.chats.get(&chat_id) {
            Some(c) => Some(c.clone()),
            None => None,
        }
    }

    /// The chat recorded under `chat_id` together with its offer.
    pub fn pub_get_chat(&self, chat_id: String) -> (r: Result<CompleteChat, Fault>)
        ensures
            match r {
                Ok(c) => self@.chats.contains_key(chat_id@) && c@ == (CompleteChatView {
                    chat: Some(self@.chats[chat_id@]),
                    offer: if self@.offers.contains_key(self@.chats[chat_id@].offer_id) {
                        Some(self@.completed(self@.offers[self@.chats[chat_id@].offer_id]))
                    } else {
                        None
                    },
                }),
                Err(e) => !self@.chats.contains_key(chat_id@) && e == Fault::ChatNotFound,
            },
    {
        broadcast use group_views;

        let chat = match self.chats.get(&chat_id) {
            Some(c) => c.clone(),
            None => {
                return Err(Fault::ChatNotFound);
            },
        };
        let offer = self.pub_get_offer(chat.offer_id.clone());
        Ok(CompleteChat { chat: Some(chat), offer })
    }

    /// Succeeds where the caller owns the ledger. No chat is removed.
    pub fn remove_chat(&self, ctx: &Context) -> (r: Result<(), Fault>)
        ensures
            match r {
                Ok(_) => ctx@.predecessor_account_id == self@.owner_id,
                Err(e) => ctx@.predecessor_account_id != self@.owner_id && e == Fault::NotOwner,
            },
    {
        self.assert_owner(ctx)
    }

    /// The chats that `account_id` opened or that run over its offers, in
    /// listing order.
    pub fn get_account_chats(&self, account_id: AccountId) -> (r: Vec<Chat>)
        ensures
            seq_views(r@) == self@.chats.values().filter(
                |c: ChatView| c.involves(account_id@),
            ),
    {
        broadcast use group_views;

        proof {
            use_type_invariant(&self.chats);
            self.chats.lemma_listing();
            lemma_views_values(self.chats@);
        }
        let ghost pred = |c: ChatView| c.involves(account_id@);
        let ghost all = self@.chats.values();
        let mut out: Vec<Chat> = Vec::new();
        let n = self.chats.len();
        let mut i: usize = 0;
        proof {
            lemma_filter_start(all, pred);
        }
        while i < n
            invariant
                i <= n,
                n == self.chats@.len(),
                all == seq_views(self.chats@.values()),
                pred == (|c: ChatView| c.involves(account_id@)),
                seq_views(out@) == all.take(i as int).filter(pred),
                i == n && i > 0 ==> all.take(i as int) == all,
            decreases n - i,
        {
            proof {
                lemma_filter_step(all, i as int, pred);
            }
            let chat = self.chats.value_at(i);
            if chat.owner == account_id || chat.offerer == account_id {
                out.push(chat.clone());
            }
            i += 1;
        }
        out
    }

    /// Takes out every chat.
    pub fn clear_chats(&mut self)
        ensures
            final(self)@ == (ContractView { chats: Listing::empty(), ..old(self)@ }),
    {
        broadcast use group_views;

        self.chats.clear();
    }

    /// The payer of an active chat marks it as paid.
    pub fn mark_as_paid(&mut self, ctx: &Context, chat_id: String) -> (r: Result<String, Fault>)
        ensures
            said(r, *old(self), *final(self), old(self)@.mark_as_paid(ctx@, chat_id@)),
    {
        broadcast use group_views;

        let mut chat = match self.chats.get(&chat_id) {
            Some(c) => c.clone(),
            None => {
                return Err(Fault::ChatNotFound);
            },
        };
        if chat.active {
            let _ = chat.mark_as_paid(&ctx.predecessor_account_id);
            self.chats.insert(chat_id, chat);
            Ok("success".to_string())
        } else {
            Ok("chat is not active".to_string())
        }
    }

    /// Stores `chat` under `chat_id` and releases its escrow: all of it,
    /// or nothing where a fault stands in the way.
    fn release_marked(&mut self, ctx: &Context, chat_id: String, chat: Chat) -> (r: Result<
        Payout,
        Fault,
    >)
        ensures
            match (ContractView {
                chats: old(self)@.chats.insert(chat_id@, chat@),
                ..old(self)@
            }).release_near(ctx@, chat_id@) {
                Ok((payout, next)) => r matches Ok(p) && p@ == payout && final(self)@ == next,
                Err(e) => r matches Err(f) && f == e && *final(self) == *old(self),
            },
    {
        broadcast use group_views;

        let ghost start = ContractView {
            chats: old(self)@.chats.insert(chat_id@, chat@),
            ..old(self)@
        };
        let offer = match self.offers.get(&chat.offer_id) {
            Some(o) => o,
            None => {
                return Err(Fault::OfferNotFound);
            },
        };
        if chat.released {
            return Err(Fault::AlreadyReleased);
        }
        if chat.canceled {
            return Err(Fault::ChatNotActive);
        }
        let buy = offer.offer_type == "buy".to_string();
        let mut chat = chat;
        chat.released = true;
        let (fee_payer, from, to) = if buy {
            (chat.receiver.clone(), chat.owner.clone(), chat.offerer.clone())
        } else {
            chat.ended_at = Some(ctx.block_timestamp);
            (chat.payer.clone(), chat.offerer.clone(), chat.owner.clone())
        };
        let ghost marked = ContractView {
            chats: start.chats.insert(chat_id@, chat@),
            ..start
        };
        assert(marked.chats =~= old(self)@.chats.insert(chat_id@, chat@));
        let plan = self.plan_revenue(
            ctx,
            "near".to_string(),
            "trade".to_string(),
            &fee_payer,
            chat.trade_cost,
            None,
        )?;
        let mut entry = if from == fee_payer {
            plan.account.clone()
        } else {
            match self.accounts.get(from.as_string()) {
                Some(a) => a.clone(),
                None => {
                    return Err(Fault::AccountNotFound);
                },
            }
        };
        let payout = entry.release(&ctx.predecessor_account_id, chat.amount, to)?;
        self.chats.insert(chat_id, chat);
        self.book_revenue(&fee_payer, plan);
        self.accounts.insert(from.to_string(), entry);
        Ok(payout)
    }

    /// Releases the escrow of the chat `chat_id`, once: the fee is booked
    /// as revenue and the traded amount is owed to the other party. A
    /// second release of the same chat is a fault and changes nothing.
    pub fn release_near(&mut self, ctx: &Context, chat_id: String) -> (r: Result<Payout, Fault>)
        ensures
            match old(self)@.release_near(ctx@, chat_id@) {
                Ok((payout, next)) => r matches Ok(p) && p@ == payout && final(self)@ == next,
                Err(e) => r matches Err(f) && f == e && *final(self) == *old(self),
            },
            old(self)@.chats.contains_key(chat_id@) && old(self)@.chats[chat_id@].released ==> r
                == Err::<Payout, Fault>(Fault::AlreadyReleased) || r == Err::<Payout, Fault>(
                Fault::OfferNotFound,
            ),
            r is Ok ==> final(self)@.chats[chat_id@].released,
    {
        broadcast use group_views;

        let chat = match self.chats.get(&chat_id) {
            Some(c) => c.clone(),
            None => {
                return Err(Fault::ChatNotFound);
            },
        };
        assert(old(self)@.chats.insert(chat_id@, chat@) =~= old(self)@.chats);
        self.release_marked(ctx, chat_id, chat)
    }

    /// The receiver of an active chat marks it as received, and the
    /// escrow is released at once.
    pub fn mark_as_received(&mut self, ctx: &Context, chat_id: String) -> (r: Result<
        Receipt,
        Fault,
    >)
        ensures
            match old(self)@.mark_as_received(ctx@, chat_id@) {
                Ok((status, payout, next)) => r matches Ok(receipt) && receipt.status@ == status
                    && (match receipt.payout {
                    Some(p) => payout == Some(p@),
                    None => payout is None,
                }) && final(self)@ == next,
                Err(e) => r matches Err(f) && f == e && *final(self) == *old(self),
            },
            r matches Ok(receipt) && receipt.payout is None ==> *final(self) == *old(self),
    {
        broadcast use group_views;

        let mut chat = match self.chats.get(&chat_id) {
            Some(c) => c.clone(),
            None => {
                return Err(Fault::ChatNotFound);
            },
        };
        if !chat.active {
            return Ok(Receipt { status: "chat is not active".to_string(), payout: None });
        }
        if chat.receiver != ctx.predecessor_account_id {
            return Ok(Receipt { status: "success".to_string(), payout: None });
        }
        chat.received = true;
        let payout = self.release_marked(ctx, chat_id, chat)?;
        Ok(Receipt { status: "success".to_string(), payout: Some(payout) })
    }

    /// Cancels the chat `chat_id` and unlocks the traded amount.
    pub fn cancel_chat(&mut self, chat_id: String) -> (r: Result<String, Fault>)
        ensures
            said(r, *old(self), *final(self), old(self)@.cancel_chat(chat_id@)),
            !(r matches Ok(s) && s@ == "chat canceled"@) ==> *final(self) == *old(self),
    {
        broadcast use group_views;

        let mut chat = match self.chats.get(&chat_id) {
            Some(c) => c.clone(),
            None => {
                return Err(Fault::ChatNotFound);
            },
        };
        let offer = match self.offers.get(&chat.offer_id) {
            Some(o) => o,
            None => {
                return Err(Fault::OfferNotFound);
            },
        };
        if !chat.active {
            return Err(Fault::ChatNotActive);
        }
        if chat.released {
            return Err(Fault::AlreadyReleased);
        }
        if chat.paid || chat.received {
            return Ok(
                "Chat cannot be cancelled since its either marked as paid or received".to_string(),
            );
        }
        let party = if offer.offer_type == "buy".to_string() {
            chat.owner.clone()
        } else {
            chat.offerer.clone()
        };
        let mut entry = match self.accounts.get(party.as_string()) {
            Some(a) => a.clone(),
            None => {
                return Err(Fault::AccountNotFound);
            },
        };
        entry.unlock(chat.amount)?;
        let status = chat.mark_as_canceled();
        self.chats.insert(chat_id, chat);
        self.accounts.insert(party.to_string(), entry);
        Ok(status)
    }

    /// The receiver of the chat rates its payer: `rating` is a like where
    /// it is true and a dislike where it is not. Only the first rating
    /// counts.
    pub fn receiver_rate_chat(&mut self, ctx: &Context, chat_id: String, rating: bool) -> (r:
        Result<(), Fault>)
        ensures
            done(
                r,
                *old(self),
                *final(self),
                old(self)@.receiver_rate_chat(ctx@, chat_id@, rating),
            ),
    {
        broadcast use group_views;

        let mut chat = match self.chats.get(&chat_id) {
            Some(c) => c.clone(),
            None => {
                return Err(Fault::ChatNotFound);
            },
        };
        if ctx.predecessor_account_id != chat.receiver || chat.receiver_has_rated {
            return Ok(());
        }
        let mut entry = match self.accounts.get(chat.payer.as_string()) {
            Some(a) => a.clone(),
            None => {
                return Err(Fault::AccountNotFound);
            },
        };
        if rating {
            entry.add_like()?;
        } else {
            entry.add_dislike()?;
        }
        chat.receiver_has_rated = true;
        let rated = chat.payer.to_string();
        self.chats.insert(chat_id, chat);
        self.accounts.insert(rated, entry);
        Ok(())
    }

    /// The payer of the chat rates its receiver. Only the first rating
    /// counts.
    pub fn payer_rate_chat(&mut self, ctx: &Context, chat_id: String, rating: bool) -> (r: Result<
        (),
        Fault,
    >)
        ensures
            done(r, *old(self), *final(self), old(self)@.payer_rate_chat(ctx@, chat_id@, rating)),
    {
        broadcast use group_views;

        let mut chat = match self.chats.get(&chat_id) {
            Some(c) => c.clone(),
            None => {
                return Err(Fault::ChatNotFound);
            },
        };
        if ctx.predecessor_account_id != chat.payer || chat.payer_has_rated {
            return Ok(());
        }
        let mut entry = match self.accounts.get(chat.receiver.as_string()) {
            Some(a) => a.clone(),
            None => {
                return Err(Fault::AccountNotFound);
            },
        };
        if rating {
            entry.add_like()?;
        } else {
            entry.add_dislike()?;
        }
        chat.payer_has_rated = true;
        let rated = chat.receiver.to_string();
        self.chats.insert(chat_id, chat);
        self.accounts.insert(rated, entry);
        Ok(())
    }
}

/// At-most-once release. Once the escrow of a chat has been released, by a
/// release or by the receiver's mark, a further release of the same chat is
/// a fault, and a further mark as received either is a fault or pays
/// nothing and leaves the ledger as it is: nothing is debited twice.
pub proof fn release_at_most_once(
    s: ContractView,
    first: ContextView,
    second: ContextView,
    chat_id: Seq<char>,
)
    ensures
        s.release_near(first, chat_id) matches Ok((_, next)) ==> released_for_good(
            next,
            second,
            chat_id,
        ),
        s.mark_as_received(first, chat_id) matches Ok((_, Some(_), next)) ==> released_for_good(
            next,
            second,
            chat_id,
        ),
{
}

/// No call can release the escrow of `chat_id` in the ledger `s` again.
pub open spec fn released_for_good(s: ContractView, ctx: ContextView, chat_id: Seq<char>) -> bool {
    &&& s.chats.contains_key(chat_id)
    &&& s.chats[chat_id].released
    &&& s.release_near(ctx, chat_id) matches Err(e) && e == Fault::AlreadyReleased
    &&& match s.mark_as_received(ctx, chat_id) {
        Ok((_, payout, after)) => payout is None && after == s,
        Err(_) => true,
    }
}

/// Open-chat atomicity. A chat that is refused leaves no record: unless
/// the answer is `created`, the ledger is as it was. This holds, among
/// the refusals, of the one for want of balance: then no chat stands under
/// `id` that did not stand there before. A chat that is opened replaces no
/// chat: every chat that there was is as it was.
pub proof fn open_chat_atomic(
    s: ContractView,
    ctx: ContextView,
    id: Seq<char>,
    offer_id: Seq<char>,
    owner: Seq<char>,
    amount: u128,
    payer: Seq<char>,
    receiver: Seq<char>,
    payment_msg: Seq<char>,
)
    ensures
        s.add_buy_chat(ctx, id, offer_id, owner, amount, payer, receiver, payment_msg) matches Ok(
            (status, next),
        ) ==> (status == "created"@ || next == s) && chats_evolve(s, next) && entries_persist(
            s,
            next,
        ),
        s.add_sell_chat(ctx, id, offer_id, owner, amount, payer, receiver, payment_msg) matches Ok(
            (status, next),
        ) ==> (status == "created"@ || next == s) && chats_evolve(s, next) && entries_persist(
            s,
            next,
        ),
        !s.chats.contains_key(id) && s.offers.contains_key(offer_id) && owner
            != s.offers[offer_id].offerer && is_buy(s.offers[offer_id].offer_type)
            && s.accounts.contains_key(owner) && s.accounts[owner].balance < escrow(
            s.send_cost,
            amount,
        ) ==> s.add_buy_chat(ctx, id, offer_id, owner, amount, payer, receiver, payment_msg)
            == Ok::<(Seq<char>, ContractView), Fault>(
            ("You don't have enough balance to chat with someone"@, s),
        ),
{
}

/// A chat is rated once by each party. Once the receiver has rated, no
/// further rating by a receiver changes anything; the same holds of the
/// payer. The first rating by the right party sets the mark.
pub proof fn rating_counts_once(s: ContractView, ctx: ContextView, chat_id: Seq<char>, rating: bool)
    requires
        s.chats.contains_key(chat_id),
    ensures
        s.chats[chat_id].receiver_has_rated ==> s.receiver_rate_chat(ctx, chat_id, rating) == Ok::<
            ContractView,
            Fault,
        >(s),
        s.chats[chat_id].payer_has_rated ==> s.payer_rate_chat(ctx, chat_id, rating) == Ok::<
            ContractView,
            Fault,
        >(s),
        s.chats[chat_id].is_receiver(ctx.predecessor_account_id) ==> (s.receiver_rate_chat(
            ctx,
            chat_id,
            rating,
        ) matches Ok(next) ==> next.chats[chat_id].receiver_has_rated),
        s.chats[chat_id].is_payer(ctx.predecessor_account_id) ==> (s.payer_rate_chat(
            ctx,
            chat_id,
            rating,
        ) matches Ok(next) ==> next.chats[chat_id].payer_has_rated),
{
}

impl ChatView {
    /// A chat is never both released and canceled.
    pub open spec fn exclusive(self) -> bool {
        !(self.released && self.canceled)
    }

    /// What may become of a chat in one step: it stays the same chat
    /// between the same parties over the same amounts; what was released,
    /// canceled or rated stays so; it is still not both released and
    /// canceled; and it is closed only by being canceled.
    pub open spec fn evolves_to(self, next: ChatView) -> bool {
        &&& next.id == self.id && next.offer_id == self.offer_id
        &&& next.owner == self.owner && next.offerer == self.offerer
        &&& next.payer == self.payer && next.receiver == self.receiver
        &&& next.amount == self.amount && next.trade_cost == self.trade_cost
        &&& self.released ==> next.released
        &&& self.canceled ==> next.canceled
        &&& self.payer_has_rated ==> next.payer_has_rated
        &&& self.receiver_has_rated ==> next.receiver_has_rated
        &&& self.exclusive() ==> next.exclusive()
        &&& next.active != self.active ==> !next.active && next.canceled
    }
}

/// Every chat of `s` is in `next`, and has evolved as a chat may.
pub open spec fn chats_evolve(s: ContractView, next: ContractView) -> bool {
    forall|k: Seq<char>| #[trigger]
        s.chats.contains_key(k) ==> next.chats.contains_key(k) && s.chats[k].evolves_to(
            next.chats[k],
        )
}

/// The life of a chat. No step of the engine that follows the opening of
/// a chat takes back a release, a cancellation or a rating, changes the
/// parties or the amounts, or makes a chat both released and canceled; a
/// chat is closed by its cancellation only; and no step deletes a chat or
/// the entry of an account.
pub proof fn chat_lifecycle(s: ContractView, ctx: ContextView, chat_id: Seq<char>, rating: bool)
    ensures
        s.mark_as_paid(ctx, chat_id) matches Ok((_, next)) ==> chats_evolve(s, next)
            && entries_persist(s, next),
        s.mark_as_received(ctx, chat_id) matches Ok((_, _, next)) ==> chats_evolve(s, next)
            && entries_persist(s, next),
        s.release_near(ctx, chat_id) matches Ok((_, next)) ==> chats_evolve(s, next)
            && entries_persist(s, next),
        s.cancel_chat(chat_id) matches Ok((_, next)) ==> chats_evolve(s, next) && entries_persist(
            s,
            next,
        ),
        s.receiver_rate_chat(ctx, chat_id, rating) matches Ok(next) ==> chats_evolve(s, next)
            && entries_persist(s, next),
        s.payer_rate_chat(ctx, chat_id, rating) matches Ok(next) ==> chats_evolve(s, next)
            && entries_persist(s, next),
{
}

/// The accounts of an escrow. Opening a chat moves the amount and the
/// fee from the spendable to the locked funds of one entry; a
/// cancellation moves the amount back; a release takes the amount and the
/// fee out of the ledger, the amount as the payout and the fee as revenue.
/// No step touches the entry of anyone else.
pub proof fn escrow_accounting(
    s: ContractView,
    ctx: ContextView,
    id: Seq<char>,
    offer_id: Seq<char>,
    owner: Seq<char>,
    amount: u128,
    payer: Seq<char>,
    receiver: Seq<char>,
    payment_msg: Seq<char>,
)
    ensures
        s.add_buy_chat(ctx, id, offer_id, owner, amount, payer, receiver, payment_msg) matches Ok(
            (status, next),
        ) ==> (status == "created"@ ==> moved_within(
            s,
            next,
            owner,
            -escrow(s.send_cost, amount),
        ) && next.revenue == s.revenue),
        s.cancel_chat(id) matches Ok((status, next)) ==> (status == "chat canceled"@
            ==> moved_within(
            s,
            next,
            if is_buy(s.offers[s.chats[id].offer_id].offer_type) {
                s.chats[id].owner
            } else {
                s.chats[id].offerer
            },
            s.chats[id].amount as int,
        ) && next.revenue == s.revenue),
        s.release_near(ctx, id) matches Ok((payout, next)) ==> released_out(s, next, id, payout),
{
    reveal_strlit("created");
    reveal_strlit("Chat already exists");
    reveal_strlit("Offer not found");
    reveal_strlit("You can't chat with yourself");
    reveal_strlit("Offer is not for buy");
    reveal_strlit("You must be a registered user to chat with someone");
    reveal_strlit("You don't have enough balance to chat with someone");
    reveal_strlit("chat canceled");
    reveal_strlit("Chat cannot be cancelled since its either marked as paid or received");
    assert("created"@.len() == 7);
    assert("Chat already exists"@.len() == 19);
    assert("Offer not found"@.len() == 15);
    assert("You can't chat with yourself"@.len() == 28);
    assert("Offer is not for buy"@.len() == 20);
    assert("You must be a registered user to chat with someone"@.len() == 50);
    assert("You don't have enough balance to chat with someone"@.len() == 50);
    assert("chat canceled"@.len() == 13);
    assert("Chat cannot be cancelled since its either marked as paid or received"@.len() == 68);
}

/// Between `s` and `next`, `delta` has moved from the locked to the
/// spendable funds of `party`, and no other entry has changed.
pub open spec fn moved_within(
    s: ContractView,
    next: ContractView,
    party: Seq<char>,
    delta: int,
) -> bool {
    &&& s.accounts.contains_key(party) && next.accounts.contains_key(party)
    &&& next.accounts[party].balance == s.accounts[party].balance + delta
    &&& next.accounts[party].locked == s.accounts[party].locked - delta
    &&& forall|k: Seq<char>|
        k != party ==> next.accounts.contains_key(k) == s.accounts.contains_key(k) && (
        s.accounts.contains_key(k) ==> next.accounts[k] == s.accounts[k])
}

/// Between `s` and `next`, the escrow of the chat `id` has left the
/// ledger: the amount is owed as `payout` to the other party, the fee is
/// added to the revenue, both are gone from the locked funds of the
/// entries that held them, and no spendable balance has changed.
pub open spec fn released_out(
    s: ContractView,
    next: ContractView,
    id: Seq<char>,
    payout: PayoutView,
) -> bool {
    let chat = s.chats[id];
    let buy = is_buy(s.offers[chat.offer_id].offer_type);
    let fee_payer = if buy {
        chat.receiver
    } else {
        chat.payer
    };
    let from = if buy {
        chat.owner
    } else {
        chat.offerer
    };
    &&& payout.amount == chat.amount
    &&& payout.to == (if buy {
        chat.offerer
    } else {
        chat.owner
    })
    &&& next.revenue == s.revenue + chat.trade_cost
    &&& next.revenues.len() == s.revenues.len() + 1
    &&& next.revenues.last().amount == chat.trade_cost
    &&& s.accounts.contains_key(from) && s.accounts.contains_key(fee_payer)
    &&& next.accounts[from].balance == s.accounts[from].balance
    &&& next.accounts[fee_payer].balance == s.accounts[fee_payer].balance
    &&& if fee_payer == from {
        next.accounts[from].locked == s.accounts[from].locked - chat.amount - chat.trade_cost
    } else {
        next.accounts[from].locked == s.accounts[from].locked - chat.amount
            && next.accounts[fee_payer].locked == s.accounts[fee_payer].locked - chat.trade_cost
    }
    &&& forall|k: Seq<char>|
        k != from && k != fee_payer ==> next.accounts.contains_key(k) == s.accounts.contains_key(k)
            && (s.accounts.contains_key(k) ==> next.accounts[k] == s.accounts[k])
}

} // verus!
