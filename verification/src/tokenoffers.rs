//! Offers to buy or to sell a token.
use crate::account::{PubAccountInfo, PubAccountInfoView};
use crate::account_id::AccountId;
use crate::errors::Fault;
use crate::offer::is_buy;
use crate::registry::{
    group_views, lemma_filter_start, lemma_filter_step, lemma_map_values_push,
    lemma_views_values, seq_views, Listing,
};
use crate::{
    done, said, Context, ContextView, Contract, ContractView, PaymentMethod, PaymentMethodView,
    TokenMetadata, TokenMetadataView,
};
use vstd::prelude::*;

verus! {

/// A token offer as a mathematical value.
pub struct TokenOfferView {
    pub id: Seq<char>,
    pub offer_type: Seq<char>,
    pub offerer: Seq<char>,
    pub min_amount: u128,
    pub max_amount: u128,
    pub offer_rate: u64,
    pub active: bool,
    pub token: Seq<char>,
    pub payment: Seq<char>,
    pub currency: Seq<char>,
    pub instructions: Seq<char>,
    pub created_on: u64,
    pub updated_on: Option<u64>,
}

/// A standing offer to buy or to sell a token.
#[derive(Debug)]
pub struct TokenOffer {
    pub id: String,
    /// `buy` or `sell`.
    pub offer_type: String,
    pub offerer: AccountId,
    pub min_amount: u128,
    pub max_amount: u128,
    /// The price asked, in millionths.
    pub offer_rate: u64,
    pub active: bool,
    pub token: AccountId,
    pub payment: String,
    pub currency: String,
    pub instructions: String,
    pub created_on: u64,
    pub updated_on: Option<u64>,
}

impl View for TokenOffer {
    type V = TokenOfferView;

    open spec fn view(&self) -> TokenOfferView {
        TokenOfferView {
            id: self.id@,
            offer_type: self.offer_type@,
            offerer: self.offerer@,
            min_amount: self.min_amount,
            max_amount: self.max_amount,
            offer_rate: self.offer_rate,
            active: self.active,
            token: self.token@,
            payment: self.payment@,
            currency: self.currency@,
            instructions: self.instructions@,
            created_on: self.created_on,
            updated_on: self.updated_on,
        }
    }
}

impl Clone for TokenOffer {
    fn clone(&self) -> (r: Self)
        ensures
            r@ == self@,
    {
        TokenOffer {
            id: self.id.clone(),
            offer_type: self.offer_type.clone(),
            offerer: self.offerer.clone(),
            min_amount: self.min_amount,
            max_amount: self.max_amount,
            offer_rate: self.offer_rate,
            active: self.active,
            token: self.token.clone(),
            payment: self.payment.clone(),
            currency: self.currency.clone(),
            instructions: self.instructions.clone(),
            created_on: self.created_on,
            updated_on: self.updated_on,
        }
    }
}
/// A complete token offer as a mathematical value.
pub struct CompleteTokenOfferView {
    pub id: Seq<char>,
    pub offer_type: Seq<char>,
    pub offerer: Option<PubAccountInfoView>,
    pub min_amount: u128,
    pub max_amount: u128,
    pub offer_rate: u64,
    pub active: bool,
    pub token: Option<TokenMetadataView>,
    pub payment: Option<PaymentMethodView>,
    pub currency: Seq<char>,
    pub instructions: Seq<char>,
    pub created_on: u64,
    pub updated_on: Option<u64>,
}

/// A token offer together with what is known of its author, its token and its payment method.
#[derive(Debug)]
pub struct CompleteTokenOffer {
    pub id: String,
    /// `buy` or `sell`.
    pub offer_type: String,
    pub offerer: Option<PubAccountInfo>,
    pub min_amount: u128,
    pub max_amount: u128,
    /// The price asked, in millionths.
    pub offer_rate: u64,
    pub active: bool,
    pub token: Option<TokenMetadata>,
    pub payment: Option<PaymentMethod>,
    pub currency: String,
    pub instructions: String,
    pub created_on: u64,
    pub updated_on: Option<u64>,
}

impl View for CompleteTokenOffer {
    type V = CompleteTokenOfferView;

    open spec fn view(&self) -> CompleteTokenOfferView {
        CompleteTokenOfferView {
            id: self.id@,
            offer_type: self.offer_type@,
            offerer: match self.offerer {
                Some(x) => Some(x@),
                None => None,
            },
            min_amount: self.min_amount,
            max_amount: self.max_amount,
            offer_rate: self.offer_rate,
            active: self.active,
            token: match self.token {
                Some(x) => Some(x@),
                None => None,
            },
            payment: match self.payment {
                Some(x) => Some(x@),
                None => None,
            },
            currency: self.currency@,
            instructions: self.instructions@,
            created_on: self.created_on,
            updated_on: self.updated_on,
        }
    }
}

impl Clone for CompleteTokenOffer {
    fn clone(&self) -> (r: Self)
        ensures
            r@ == self@,
    {
        CompleteTokenOffer {
            id: self.id.clone(),
            offer_type: self.offer_type.clone(),
            offerer: match &self.offerer {
                Some(x) => Some(x.clone()),
                None => None,
            },
            min_amount: self.min_amount,
            max_amount: self.max_amount,
            offer_rate: self.offer_rate,
            active: self.active,
            token: match &self.token {
                Some(x) => Some(x.clone()),
                None => None,
            },
            payment: match &self.payment {
                Some(x) => Some(x.clone()),
                None => None,
            },
            currency: self.currency.clone(),
            instructions: self.instructions.clone(),
            created_on: self.created_on,
            updated_on: self.updated_on,
        }
    }
}
impl TokenOffer {
    /// A new offer, made at time `now`, which is active.
    pub fn new(
        id: String,
        offer_type: String,
        offerer: AccountId,
        min_amount: u128,
        max_amount: u128,
        offer_rate: u64,
        token: AccountId,
        payment: String,
        currency: String,
        instructions: String,
        now: u64,
    ) -> (r: Self)
        ensures
            r@ == (TokenOfferView {
                id: id@,
                offer_type: offer_type@,
                offerer: offerer@,
                min_amount,
                max_amount,
                offer_rate,
                active: true,
                token: token@,
                payment: payment@,
                currency: currency@,
                instructions: instructions@,
                created_on: now,
                updated_on: None,
            }),
    {
        Self {
            id,
            offer_type,
            offerer,
            min_amount,
            max_amount,
            offer_rate,
            active: true,
            token,
            payment,
            currency,
            instructions,
            created_on: now,
            updated_on: None,
        }
    }

    /// Sets the price asked, in millionths.
    pub fn update_offer_rate(&mut self, offer_rate: u64)
        ensures
            final(self)@ == (TokenOfferView { offer_rate, ..old(self)@ }),
    {
        self.offer_rate = offer_rate;
    }

    /// Opens or closes the offer.
    pub fn update_offer_status(&mut self, active: bool)
        ensures
            final(self)@ == (TokenOfferView { active, ..old(self)@ }),
    {
        self.active = active;
    }

    /// The offer with its payment method filled in, and its author and
    /// its token left open.
    pub fn make_complete_offer(&self, payment: Option<PaymentMethod>) -> (r: CompleteTokenOffer)
        ensures
            r@ == self@.complete(
                match payment {
                    Some(p) => Some(p@),
                    None => None,
                },
                None,
                None,
            ),
    {
        CompleteTokenOffer {
            id: self.id.clone(),
            offer_type: self.offer_type.clone(),
            offerer: None,
            min_amount: self.min_amount,
            max_amount: self.max_amount,
            offer_rate: self.offer_rate,
            active: self.active,
            payment,
            currency: self.currency.clone(),
            instructions: self.instructions.clone(),
            token: None,
            created_on: self.created_on,
            updated_on: self.updated_on,
        }
    }
}

impl TokenOfferView {
    /// The offer with what is known of its payment method, its author and
    /// its token.
    pub open spec fn complete(
        self,
        payment: Option<PaymentMethodView>,
        offerer: Option<PubAccountInfoView>,
        token: Option<TokenMetadataView>,
    ) -> CompleteTokenOfferView {
        CompleteTokenOfferView {
            id: self.id,
            offer_type: self.offer_type,
            offerer,
            min_amount: self.min_amount,
            max_amount: self.max_amount,
            offer_rate: self.offer_rate,
            active: self.active,
            token,
            payment,
            currency: self.currency,
            instructions: self.instructions,
            created_on: self.created_on,
            updated_on: self.updated_on,
        }
    }
}

impl TokenOfferView {
    /// Whether the offer is of the type `offer_type` and, where a token
    /// is named, in that token.
    pub open spec fn matches_listing(self, offer_type: Seq<char>, token: Option<Seq<char>>) -> bool {
        self.offer_type == offer_type && match token {
            Some(t) => self.token == t,
            None => true,
        }
    }
}

impl ContractView {
    /// Records a token offer of `offerer`, who must be registered, under
    /// an id that is not in use: an offer is never replaced. An offer to
    /// buy is always taken; any other is taken where its author holds the
    /// largest amount it offers of the token.
    pub open spec fn add_token_offer(
        self,
        ctx: ContextView,
        id: Seq<char>,
        offer_type: Seq<char>,
        offerer: Seq<char>,
        min_amount: u128,
        max_amount: u128,
        offer_rate: u64,
        token: Seq<char>,
        payment: Seq<char>,
        currency: Seq<char>,
        instructions: Seq<char>,
    ) -> Result<(Seq<char>, ContractView), Fault> {
        let taken = Ok::<(Seq<char>, ContractView), Fault>(
            (
                "Offer created successfully"@,
                ContractView {
                    tokenoffers: self.tokenoffers.insert(
                        id,
                        TokenOfferView {
                            id,
                            offer_type,
                            offerer,
                            min_amount,
                            max_amount,
                            offer_rate,
                            active: true,
                            token,
                            payment,
                            currency,
                            instructions,
                            created_on: ctx.block_timestamp,
                            updated_on: None,
                        },
                    ),
                    ..self
                },
            ),
        );
        if self.tokenoffers.contains_key(id) {
            Ok(("Offer already exists"@, self))
        } else if !self.accounts.contains_key(offerer) {
            Err(Fault::AccountNotFound)
        } else if is_buy(offer_type) {
            taken
        } else {
            match self.accounts[offerer].get_token_balance(token) {
                Err(e) => Err(e),
                Ok(balance) => if balance >= max_amount {
                    taken
                } else {
                    Ok(("You do not have enough balance to add offer"@, self))
                },
            }
        }
    }

    /// Opens or closes the token offer `offer_id`.
    pub open spec fn update_token_offer_status(self, offer_id: Seq<char>, active: bool) -> Result<
        ContractView,
        Fault,
    > {
        if !self.tokenoffers.contains_key(offer_id) {
            Err(Fault::OfferNotFound)
        } else {
            Ok(
                ContractView {
                    tokenoffers: self.tokenoffers.insert(
                        offer_id,
                        TokenOfferView { active, ..self.tokenoffers[offer_id] },
                    ),
                    ..self
                },
            )
        }
    }
}

impl ContractView {
    /// The number of token offers that `account` wrote.
    pub open spec fn token_offers_of(self, account: Seq<char>) -> nat {
        self.tokenoffers.values().filter(|o: TokenOfferView| o.offerer == account).len()
    }

    /// A token offer with its payment method, its token and what is
    /// public of its author.
    pub open spec fn completed_token_offer(self, o: TokenOfferView) -> CompleteTokenOfferView {
        o.complete(self.payment(o.payment), self.pub_info(o.offerer), self.token(o.token))
    }

    /// The token offers of the type `offer_type`, in `token` where one is
    /// named, completed, in listing order.
    pub open spec fn token_offers_of_type(
        self,
        offer_type: Seq<char>,
        token: Option<Seq<char>>,
    ) -> Seq<CompleteTokenOfferView> {
        self.tokenoffers.values().filter(
            |o: TokenOfferView| o.matches_listing(offer_type, token),
        ).map_values(|o: TokenOfferView| self.completed_token_offer(o))
    }
}

impl Contract {
    /// Records a token offer. Answers whether the offer was taken.
    pub fn add_token_offer(
        &mut self,
        ctx: &Context,
        id: String,
        offer_type: String,
        offerer: AccountId,
        min_amount: u128,
        max_amount: u128,
        offer_rate: u64,
        token: AccountId,
        payment: String,
        currency: String,
        instructions: String,
    ) -> (r: Result<String, Fault>)
        ensures
            said(
                r,
                *old(self),
                *final(self),
                old(self)@.add_token_offer(
                    ctx@,
                    id@,
                    offer_type@,
                    offerer@,
                    min_amount,
                    max_amount,
                    offer_rate,
                    token@,
                    payment@,
                    currency@,
                    instructions@,
                ),
            ),
    {
        broadcast use group_views;

        if self.tokenoffers.contains_key(&id) {
            return Ok("Offer already exists".to_string());
        }
        let account = match self.accounts.get(offerer.as_string()) {
            Some(a) => a,
            None => {
                return Err(Fault::AccountNotFound);
            },
        };
        let taken = if offer_type == "buy".to_string() {
            true
        } else {
            account.get_token_balance(token.clone())? >= max_amount
        };
        if taken {
            let offer = TokenOffer::new(
                id.clone(),
                offer_type,
                offerer,
                min_amount,
                max_amount,
                offer_rate,
                token,
                payment,
                currency,
                instructions,
                ctx.block_timestamp,
            );
            self.tokenoffers.insert(id, offer);
            Ok("Offer created successfully".to_string())
        } else {
            Ok("You do not have enough balance to add offer".to_string())
        }
    }

    /// The token offers that `account_id` wrote, in listing order.
    pub fn get_account_token_offers(&self, account_id: AccountId) -> (r: Vec<TokenOffer>)
        ensures
            seq_views(r@) == self@.tokenoffers.values().filter(
                |o: TokenOfferView| o.offerer == account_id@,
            ),
    {
        broadcast use group_views;

        proof {
            use_type_invariant(&self.tokenoffers);
            self.tokenoffers.lemma_listing();
            lemma_views_values(self.tokenoffers@);
        }
        let ghost pred = |o: TokenOfferView| o.offerer == account_id@;
        let ghost all = self@.tokenoffers.values();
        let mut out: Vec<TokenOffer> = Vec::new();
        let n = self.tokenoffers.len();
        let mut i: usize = 0;
        proof {
            lemma_filter_start(all, pred);
        }
        while i < n
            invariant
                i <= n,
                n == self.tokenoffers@.len(),
                all == seq_views(self.tokenoffers@.values()),
                pred == (|o: TokenOfferView| o.offerer == account_id@),
                seq_views(out@) == all.take(i as int).filter(pred),
                i == n && i > 0 ==> all.take(i as int) == all,
            decreases n - i,
        {
            proof {
                lemma_filter_step(all, i as int, pred);
            }
            let offer = self.tokenoffers.value_at(i);
            if offer.offerer == account_id {
                out.push(offer.clone());
            }
            i += 1;
        }
        out
    }

    /// The number of token offers that `account_id` wrote.
    pub fn get_t_offers_len_by_account(&self, account_id: AccountId) -> (n: usize)
        ensures
            n == self@.token_offers_of(account_id@),
    {
        let found = self.get_account_token_offers(account_id);
        found.len()
    }

    /// The offer completed with its payment method, its author and its
    /// token.
    fn complete_token_offer(&self, offer: &TokenOffer) -> (r: CompleteTokenOffer)
        ensures
            r@ == self@.completed_token_offer(offer@),
    {
        let payment = self.get_payment(offer.payment.clone());
        let mut complete = offer.make_complete_offer(payment);
        complete.offerer = self.acc_pub_info(offer.offerer.clone());
        complete.token = self.get_token(offer.token.clone());
        complete
    }

    /// The token offers of one type, in one token where one is named,
    /// completed, in listing order.
    fn list_token_offers(&self, offer_type: &String, token: Option<&AccountId>) -> (r: Vec<
        CompleteTokenOffer,
    >)
        ensures
            seq_views(r@) == self@.token_offers_of_type(
                offer_type@,
                match token {
                    Some(t) => Some(t@),
                    None => None,
                },
            ),
    {
        broadcast use group_views;

        proof {
            use_type_invariant(&self.tokenoffers);
            self.tokenoffers.lemma_listing();
            lemma_views_values(self.tokenoffers@);
        }
        let ghost wanted = match token {
            Some(t) => Some(t@),
            None => None,
        };
        let ghost pred = |o: TokenOfferView| o.matches_listing(offer_type@, wanted);
        let ghost f = |o: TokenOfferView| self@.completed_token_offer(o);
        let ghost all = self@.tokenoffers.values();
        let mut out: Vec<CompleteTokenOffer> = Vec::new();
        let n = self.tokenoffers.len();
        let mut i: usize = 0;
        proof {
            lemma_filter_start(all, pred);
            lemma_map_values_push(Seq::<TokenOfferView>::empty(), all[0], f);
        }
        while i < n
            invariant
                i <= n,
                n == self.tokenoffers@.len(),
                all == seq_views(self.tokenoffers@.values()),
                wanted == (match token {
                    Some(t) => Some(t@),
                    None => None,
                }),
                pred == (|o: TokenOfferView| o.matches_listing(offer_type@, wanted)),
                f == (|o: TokenOfferView| self@.completed_token_offer(o)),
                seq_views(out@) == all.take(i as int).filter(pred).map_values(f),
                i == n && i > 0 ==> all.take(i as int) == all,
            decreases n - i,
        {
            proof {
                lemma_filter_step(all, i as int, pred);
                lemma_map_values_push(all.take(i as int).filter(pred), all[i as int], f);
            }
            let offer = self.tokenoffers.value_at(i);
            let in_token = match token {
                Some(t) => offer.token == *t,
                None => true,
            };
            if offer.offer_type == *offer_type && in_token {
                out.push(self.complete_token_offer(offer));
            }
            i += 1;
        }
        out
    }

    /// The token offers to buy, completed, in listing order.
    pub fn get_buy_token_offers(&self) -> (r: Vec<CompleteTokenOffer>)
        ensures
            seq_views(r@) == self@.token_offers_of_type("buy"@, None),
    {
        self.list_token_offers(&"buy".to_string(), None)
    }

    /// The offers to buy `token`, completed, in listing order.
    pub fn get_buy_token_offers_by_token(&self, token: AccountId) -> (r: Vec<CompleteTokenOffer>)
        ensures
            seq_views(r@) == self@.token_offers_of_type("buy"@, Some(token@)),
    {
        self.list_token_offers(&"buy".to_string(), Some(&token))
    }

    /// A copy of the token offer recorded under `offer_id`.
    pub fn get_token_offer(&self, offer_id: String) -> (r: Option<TokenOffer>)
        ensures
            match r {
                Some(o) => self@.tokenoffers.contains_key(offer_id@) && o@
                    == self@.tokenoffers[offer_id@],
                None => !self@.tokenoffers.contains_key(offer_id@),
            },
    {
        broadcast use group_views;

        match self.tokenoffers.get(&offer_id) {
            Some(o) => Some(o.clone()),
            None => None,
        }
    }

    /// The token offer recorded under `offer_id`, completed with its
    /// payment method, its token and what is public of its author.
    pub fn pub_get_token_offer(&self, offer_id: String) -> (r: Option<CompleteTokenOffer>)
        ensures
            match r {
                Some(o) => self@.tokenoffers.contains_key(offer_id@) && o@
                    == self@.completed_token_offer(self@.tokenoffers[offer_id@]),
                None => !self@.tokenoffers.contains_key(offer_id@),
            },
    {
        broadcast use group_views;

        match self.tokenoffers.get(&offer_id) {
            Some(o) => Some(self.complete_token_offer(o)),
            None => None,
        }
    }

    /// The token offers to sell, completed, in listing order.
    pub fn get_sell_token_offers(&self) -> (r: Vec<CompleteTokenOffer>)
        ensures
            seq_views(r@) == self@.token_offers_of_type("sell"@, None),
    {
        self.list_token_offers(&"sell".to_string(), None)
    }

    /// The offers to sell `token`, completed, in listing order.
    pub fn get_sell_token_offers_by_token(&self, token: AccountId) -> (r: Vec<CompleteTokenOffer>)
        ensures
            seq_views(r@) == self@.token_offers_of_type("sell"@, Some(token@)),
    {
        self.list_token_offers(&"sell".to_string(), Some(&token))
    }

    /// Every token offer, in listing order.
    pub fn get_all_token_offers(&self) -> (r: Vec<TokenOffer>)
        ensures
            seq_views(r@) == self@.tokenoffers.values(),
    {
        proof {
            use_type_invariant(&self.tokenoffers);
            self.tokenoffers.lemma_listing();
            lemma_views_values(self.tokenoffers@);
        }
        let mut out: Vec<TokenOffer> = Vec::new();
        let n = self.tokenoffers.len();
        let mut i: usize = 0;
        while i < n
            invariant
                i <= n,
                n == self.tokenoffers@.len(),
                out.len() == i,
                forall|j: int| 0 <= j < i ==> out[j]@ == self.tokenoffers@.values()[j]@,
            decreases n - i,
        {
            out.push(self.tokenoffers.value_at(i).clone());
            i += 1;
        }
        out
    }

    /// Opens or closes the token offer `offer_id`.
    pub fn update_token_offer_status(&mut self, offer_id: String, active: bool) -> (r: Result<
        (),
        Fault,
    >)
        ensures
            done(
                r,
                *old(self),
                *final(self),
                old(self)@.update_token_offer_status(offer_id@, active),
            ),
    {
        broadcast use group_views;

        let mut offer = match self.tokenoffers.get(&offer_id) {
            Some(o) => o.clone(),
            None => {
                return Err(Fault::OfferNotFound);
            },
        };
        offer.update_offer_status(active);
        self.tokenoffers.insert(offer_id, offer);
        Ok(())
    }

    /// Takes out every token offer.
    pub fn clear_token_offers(&mut self)
        ensures
            final(self)@ == (ContractView { tokenoffers: Listing::empty(), ..old(self)@ }),
    {
        broadcast use group_views;

        self.tokenoffers.clear();
    }
}

} // verus!
