//! A ledger of escrowed trades between accounts.
//!
//! Each account has an entry with spendable and locked funds, in the native
//! currency and in tokens. A trade is negotiated in a chat over an offer:
//! opening the chat locks the funds of the party that escrows, and the chat
//! ends in a cancellation, which unlocks them, or in one release, which
//! pays them out and books the fee as revenue.
use crate::account::{Account, AccountView};
use crate::account_id::AccountId;
use crate::chat::{Chat, ChatView};
use crate::errors::Fault;
use crate::offer::{Offer, OfferView};
use crate::owner::Guardians;
use crate::registry::{group_views, lemma_views_values, seq_views, views, Listing, Registry};
use crate::revenue::{Revenue, RevenueView};
use crate::tokenchats::{TokenChat, TokenChatView};
use crate::tokenoffers::{TokenOffer, TokenOfferView};
use crate::tokenswap::{TokenSwap, TokenSwapView};
use crate::trade::{Trade, TradeView};
use crate::transfer::{Transfer, TransferView};
use vstd::prelude::*;

pub mod account;
pub mod account_id;
pub mod chat;
pub mod constants;
pub mod errors;
pub mod fee;
pub mod fungibletoken;
pub mod offer;
pub mod owner;
pub mod registry;
pub mod revenue;
pub mod text;
pub mod tokenchats;
pub mod tokenoffers;
pub mod tokenswap;
pub mod trade;
pub mod transfer;

verus! {

/// Token metadata as a mathematical value.
pub struct TokenMetadataView {
    pub address: Seq<char>,
    pub name: Seq<char>,
    pub symbol: Seq<char>,
    pub icon: Seq<char>,
    pub decimals: u8,
}

/// What is known of a token.
#[derive(Debug)]
pub struct TokenMetadata {
    pub address: AccountId,
    pub name: String,
    pub symbol: String,
    pub icon: String,
    pub decimals: u8,
}

impl View for TokenMetadata {
    type V = TokenMetadataView;

    open spec fn view(&self) -> TokenMetadataView {
        TokenMetadataView {
            address: self.address@,
            name: self.name@,
            symbol: self.symbol@,
            icon: self.icon@,
            decimals: self.decimals,
        }
    }
}

impl Clone for TokenMetadata {
    fn clone(&self) -> (r: Self)
        ensures
            r@ == self@,
    {
        TokenMetadata {
            address: self.address.clone(),
            name: self.name.clone(),
            symbol: self.symbol.clone(),
            icon: self.icon.clone(),
            decimals: self.decimals,
        }
    }
}

/// A payment method as a mathematical value.
pub struct PaymentMethodView {
    pub name: Seq<char>,
    pub icon: Seq<char>,
}

/// A way of paying the leg of a trade that runs outside the ledger.
#[derive(Debug)]
pub struct PaymentMethod {
    pub name: String,
    pub icon: String,
}

impl View for PaymentMethod {
    type V = PaymentMethodView;

    open spec fn view(&self) -> PaymentMethodView {
        PaymentMethodView {
            name: self.name@,
            icon: self.icon@,
        }
    }
}

impl Clone for PaymentMethod {
    fn clone(&self) -> (r: Self)
        ensures
            r@ == self@,
    {
        PaymentMethod {
            name: self.name.clone(),
            icon: self.icon.clone(),
        }
    }
}

/// A call context as a mathematical value.
pub struct ContextView {
    pub current_account_id: Seq<char>,
    pub predecessor_account_id: Seq<char>,
    pub block_timestamp: u64,
    pub attached_deposit: u128,
}

/// What the host says of the call that is being served.
#[derive(Debug)]
pub struct Context {
    /// The account under which the ledger itself runs.
    pub current_account_id: AccountId,
    /// The account that made the call.
    pub predecessor_account_id: AccountId,
    /// The time of the call, in nanoseconds.
    pub block_timestamp: u64,
    /// The native funds that came with the call.
    pub attached_deposit: u128,
}

impl View for Context {
    type V = ContextView;

    open spec fn view(&self) -> ContextView {
        ContextView {
            current_account_id: self.current_account_id@,
            predecessor_account_id: self.predecessor_account_id@,
            block_timestamp: self.block_timestamp,
            attached_deposit: self.attached_deposit,
        }
    }
}

impl Clone for Context {
    fn clone(&self) -> (r: Self)
        ensures
            r@ == self@,
    {
        Context {
            current_account_id: self.current_account_id.clone(),
            predecessor_account_id: self.predecessor_account_id.clone(),
            block_timestamp: self.block_timestamp,
            attached_deposit: self.attached_deposit,
        }
    }
}

/// The whole ledger as a mathematical value: every registry as a listing
/// of its keys with the map from keys to values, every log as a sequence.
pub struct ContractView {
    pub owner_id: Seq<char>,
    pub proposed_owner_id: Seq<char>,
    pub guardians: Seq<Seq<char>>,
    pub accounts: Listing<AccountView>,
    pub trades: Seq<TradeView>,
    pub transfers: Seq<TransferView>,
    pub tokenswaps: Listing<TokenSwapView>,
    pub offers: Listing<OfferView>,
    pub tokenoffers: Listing<TokenOfferView>,
    pub chats: Listing<ChatView>,
    pub tokenchats: Listing<TokenChatView>,
    pub transfer_cost: u32,
    pub send_cost: u32,
    pub tokens: Listing<TokenMetadataView>,
    pub whitelistedtokens: Listing<TokenMetadataView>,
    pub payment_methods: Listing<PaymentMethodView>,
    pub revenue: u128,
    pub revenue_usd: u128,
    pub revenues: Seq<RevenueView>,
}

/// The whole ledger: the entries of the accounts, the offers, the chats,
/// the logs, and the revenue.
#[derive(Debug)]
pub struct Contract {
    pub owner_id: AccountId,
    pub proposed_owner_id: AccountId,
    pub guardians: Guardians,
    /// The entry of each registered account, under the account's name.
    pub accounts: Registry<Account>,
    pub trades: Vec<Trade>,
    pub transfers: Vec<Transfer>,
    pub tokenswaps: Registry<TokenSwap>,
    pub offers: Registry<Offer>,
    pub tokenoffers: Registry<TokenOffer>,
    pub chats: Registry<Chat>,
    pub tokenchats: Registry<TokenChat>,
    pub transfer_cost: u32,
    /// The fee on a trade in the native currency, in millionths of the
    /// traded amount.
    pub send_cost: u32,
    pub tokens: Registry<TokenMetadata>,
    pub whitelistedtokens: Registry<TokenMetadata>,
    pub payment_methods: Registry<PaymentMethod>,
    /// All fees taken so far, in the native currency.
    pub revenue: u128,
    /// All fees taken so far, in millionths of a dollar.
    pub revenue_usd: u128,
    pub revenues: Vec<Revenue>,
}

impl View for Contract {
    type V = ContractView;

    open spec fn view(&self) -> ContractView {
        ContractView {
            owner_id: self.owner_id@,
            proposed_owner_id: self.proposed_owner_id@,
            guardians: self.guardians@,
            accounts: views(self.accounts@),
            trades: seq_views(self.trades@),
            transfers: seq_views(self.transfers@),
            tokenswaps: views(self.tokenswaps@),
            offers: views(self.offers@),
            tokenoffers: views(self.tokenoffers@),
            chats: views(self.chats@),
            tokenchats: views(self.tokenchats@),
            transfer_cost: self.transfer_cost,
            send_cost: self.send_cost,
            tokens: views(self.tokens@),
            whitelistedtokens: views(self.whitelistedtokens@),
            payment_methods: views(self.payment_methods@),
            revenue: self.revenue,
            revenue_usd: self.revenue_usd,
            revenues: seq_views(self.revenues@),
        }
    }
}

/// A step that answers with a text did what its model says: on success
/// the answer and the ledger are the model's, on a fault the fault is the
/// model's and the ledger is untouched.
pub open spec fn said(
    r: Result<String, Fault>,
    before: Contract,
    after: Contract,
    model: Result<(Seq<char>, ContractView), Fault>,
) -> bool {
    match model {
        Ok((status, next)) => r matches Ok(s) && s@ == status && after@ == next,
        Err(e) => r matches Err(f) && f == e && after == before,
    }
}

/// A step without an answer did what its model says.
pub open spec fn done(
    r: Result<(), Fault>,
    before: Contract,
    after: Contract,
    model: Result<ContractView, Fault>,
) -> bool {
    match model {
        Ok(next) => r is Ok && after@ == next,
        Err(e) => r matches Err(f) && f == e && after == before,
    }
}

/// The view of what an option holds.
pub open spec fn option_view<V: View>(o: Option<V>) -> Option<V::V> {
    match o {
        Some(v) => Some(v@),
        None => None,
    }
}

impl ContractView {
    /// The payment method with the name `name`, if there is one.
    pub open spec fn payment(self, name: Seq<char>) -> Option<PaymentMethodView> {
        if self.payment_methods.contains_key(name) {
            Some(self.payment_methods[name])
        } else {
            None
        }
    }

    /// What is known of the token `token`, if anything.
    pub open spec fn token(self, token: Seq<char>) -> Option<TokenMetadataView> {
        if self.tokens.contains_key(token) {
            Some(self.tokens[token])
        } else {
            None
        }
    }

    /// A ledger that holds nothing, run under the account `owner`, with a
    /// fee of five hundredths on trades in the native currency.
    pub open spec fn fresh(owner: Seq<char>) -> ContractView {
        ContractView {
            owner_id: owner,
            proposed_owner_id: owner,
            guardians: Seq::empty(),
            accounts: Listing::empty(),
            trades: Seq::empty(),
            transfers: Seq::empty(),
            tokenswaps: Listing::empty(),
            offers: Listing::empty(),
            tokenoffers: Listing::empty(),
            chats: Listing::empty(),
            tokenchats: Listing::empty(),
            transfer_cost: 0,
            send_cost: 50_000,
            tokens: Listing::empty(),
            whitelistedtokens: Listing::empty(),
            payment_methods: Listing::empty(),
            revenue: 0,
            revenue_usd: 0,
            revenues: Seq::empty(),
        }
    }
}

impl Contract {
    /// A ledger that holds nothing, owned by the account under which it
    /// runs.
    pub fn new(ctx: &Context) -> (r: Self)
        ensures
            r@ == ContractView::fresh(ctx@.current_account_id),
    {
        broadcast use group_views;

        let r = Self {
            owner_id: ctx.current_account_id.clone(),
            proposed_owner_id: ctx.current_account_id.clone(),
            guardians: Guardians::new(),
            accounts: Registry::new(),
            trades: Vec::new(),
            transfers: Vec::new(),
            tokenswaps: Registry::new(),
            offers: Registry::new(),
            tokenoffers: Registry::new(),
            chats: Registry::new(),
            tokenchats: Registry::new(),
            transfer_cost: 0,
            send_cost: 50_000,
            tokens: Registry::new(),
            whitelistedtokens: Registry::new(),
            payment_methods: Registry::new(),
            revenue: 0,
            revenue_usd: 0,
            revenues: Vec::new(),
        };
        r
    }

    /// Adds a payment method under its name, in place of one of that name.
    pub fn add_payment_method(&mut self, method: PaymentMethod)
        ensures
            final(self)@ == (ContractView {
                payment_methods: old(self)@.payment_methods.insert(method@.name, method@),
                ..old(self)@
            }),
    {
        broadcast use group_views;

        self.payment_methods.insert(method.name.clone(), method);
    }

    /// Removes the payment method `method_name`, if there is one.
    pub fn remove_payment_method(&mut self, method_name: String)
        ensures
            final(self)@ == (ContractView {
                payment_methods: old(self)@.payment_methods.remove(method_name@),
                ..old(self)@
            }),
    {
        broadcast use group_views;

        let _ = self.payment_methods.remove(&method_name);
    }

    /// Records what is known of `token`.
    pub fn add_token(&mut self, token: AccountId, metadata: TokenMetadata)
        ensures
            final(self)@ == (ContractView {
                tokens: old(self)@.tokens.insert(token@, metadata@),
                ..old(self)@
            }),
    {
        broadcast use group_views;

        self.tokens.insert(token.to_string(), metadata);
    }

    /// Forgets what is known of `token`.
    pub fn remove_token(&mut self, token: AccountId)
        ensures
            final(self)@ == (ContractView {
                tokens: old(self)@.tokens.remove(token@),
                ..old(self)@
            }),
    {
        broadcast use group_views;

        let _ = self.tokens.remove(token.as_string());
    }

    /// Puts `token` on the list of accepted tokens.
    pub fn add_whitelisted_token(&mut self, token: AccountId, metadata: TokenMetadata)
        ensures
            final(self)@ == (ContractView {
                whitelistedtokens: old(self)@.whitelistedtokens.insert(token@, metadata@),
                ..old(self)@
            }),
    {
        broadcast use group_views;

        self.whitelistedtokens.insert(token.to_string(), metadata);
    }

    /// Takes `token` off the list of accepted tokens.
    pub fn remove_whitelisted_token(&mut self, token: AccountId)
        ensures
            final(self)@ == (ContractView {
                whitelistedtokens: old(self)@.whitelistedtokens.remove(token@),
                ..old(self)@
            }),
    {
        broadcast use group_views;

        let _ = self.whitelistedtokens.remove(token.as_string());
    }

    /// Replaces what is known of `token`.
    pub fn update_token(&mut self, token: AccountId, metadata: TokenMetadata)
        ensures
            final(self)@ == (ContractView {
                tokens: old(self)@.tokens.insert(token@, metadata@),
                ..old(self)@
            }),
    {
        broadcast use group_views;

        self.tokens.insert(token.to_string(), metadata);
    }

    /// What is known of every token, in the order in which the tokens
    /// were added.
    pub fn get_tokens(&self) -> (r: Vec<TokenMetadata>)
        ensures
            seq_views(r@) == self@.tokens.values(),
    {
        proof {
            use_type_invariant(&self.tokens);
            self.tokens.lemma_listing();
            lemma_views_values(self.tokens@);
        }
        let mut out: Vec<TokenMetadata> = Vec::new();
        let n = self.tokens.len();
        let mut i: usize = 0;
        while i < n
            invariant
                i <= n,
                n == self.tokens@.len(),
                out.len() == i,
                forall|j: int| 0 <= j < i ==> out[j]@ == self.tokens@.values()[j]@,
            decreases n - i,
        {
            out.push(self.tokens.value_at(i).clone());
            i += 1;
        }
        out
    }

    /// What is known of `token`.
    pub fn get_token(&self, token: AccountId) -> (r: Option<TokenMetadata>)
        ensures
            match r {
                Some(t) => self@.tokens.contains_key(token@) && t@ == self@.tokens[token@],
                None => !self@.tokens.contains_key(token@),
            },
    {
        broadcast use group_views;

        match self.tokens.get(token.as_string()) {
            Some(t) => Some(t.clone()),
            None => None,
        }
    }

    /// Every payment method, in the order in which they were added.
    pub fn get_payments(&self) -> (r: Vec<PaymentMethod>)
        ensures
            seq_views(r@) == self@.payment_methods.values(),
    {
        proof {
            use_type_invariant(&self.payment_methods);
            self.payment_methods.lemma_listing();
            lemma_views_values(self.payment_methods@);
        }
        let mut out: Vec<PaymentMethod> = Vec::new();
        let n = self.payment_methods.len();
        let mut i: usize = 0;
        while i < n
            invariant
                i <= n,
                n == self.payment_methods@.len(),
                out.len() == i,
                forall|j: int| 0 <= j < i ==> out[j]@ == self.payment_methods@.values()[j]@,
            decreases n - i,
        {
            out.push(self.payment_methods.value_at(i).clone());
            i += 1;
        }
        out
    }

    /// The payment method with the name `name`.
    pub fn get_payment(&self, name: String) -> (r: Option<PaymentMethod>)
        ensures
            option_view(r) == self@.payment(name@),
    {
        broadcast use group_views;

        match self.payment_methods.get(&name) {
            Some(p) => Some(p.clone()),
            None => None,
        }
    }

    /// The fee on a trade in the native currency, in millionths.
    pub fn get_send_cost(&self) -> (r: u32)
        ensures
            r == self.send_cost,
    {
        self.send_cost
    }

    /// Sets the fee on a trade in the native currency, in millionths.
    pub fn update_send_cost(&mut self, cost: u32)
        ensures
            final(self)@ == (ContractView { send_cost: cost, ..old(self)@ }),
    {
        self.send_cost = cost;
    }
}

} // verus!
