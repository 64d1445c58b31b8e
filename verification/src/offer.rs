//! Offers to buy or to sell the native currency.
use crate::account::{PubAccountInfo, PubAccountInfoView};
use crate::account_id::AccountId;
use crate::errors::Fault;
use crate::registry::{
    group_views, lemma_filter_start, lemma_filter_step, lemma_map_values_push,
    lemma_views_values, seq_views, Listing,
};
use crate::{done, said, Contract, ContractView, PaymentMethod, PaymentMethodView};
use vstd::prelude::*;

verus! {

/// Whether the text of an offer's type says that the author wants to buy.
/// An offer of any other type is treated as one to sell.
pub open spec fn is_buy(offer_type: Seq<char>) -> bool {
    offer_type == "buy"@
}

/// Whether the text of an offer's type says that the author wants to sell.
pub open spec fn is_sell(offer_type: Seq<char>) -> bool {
    offer_type == "sell"@
}

/// An offer as a mathematical value.
pub struct OfferView {
    pub id: Seq<char>,
    pub offer_type: Seq<char>,
    pub offerer: Seq<char>,
    pub min_amount: u128,
    pub max_amount: u128,
    pub offer_rate: u64,
    pub active: bool,
    pub payment: Seq<char>,
    pub currency: Seq<char>,
    pub instructions: Seq<char>,
}

/// A standing offer to buy or to sell the native currency.
#[derive(Debug)]
pub struct Offer {
    pub id: String,
    /// `buy` or `sell`.
    pub offer_type: String,
    pub offerer: AccountId,
    pub min_amount: u128,
    pub max_amount: u128,
    /// The price asked, in millionths.
    pub offer_rate: u64,
    pub active: bool,
    pub payment: String,
    pub currency: String,
    pub instructions: String,
}

impl View for Offer {
    type V = OfferView;

    open spec fn view(&self) -> OfferView {
        OfferView {
            id: self.id@,
            offer_type: self.offer_type@,
            offerer: self.offerer@,
            min_amount: self.min_amount,
            max_amount: self.max_amount,
            offer_rate: self.offer_rate,
            active: self.active,
            payment: self.payment@,
            currency: self.currency@,
            instructions: self.instructions@,
        }
    }
}

impl Clone for Offer {
    fn clone(&self) -> (r: Self)
        ensures
            r@ == self@,
    {
        Offer {
            id: self.id.clone(),
            offer_type: self.offer_type.clone(),
            offerer: self.offerer.clone(),
            min_amount: self.min_amount,
            max_amount: self.max_amount,
            offer_rate: self.offer_rate,
            active: self.active,
            payment: self.payment.clone(),
            currency: self.currency.clone(),
            instructions: self.instructions.clone(),
        }
    }
}
/// A complete offer as a mathematical value.
pub struct CompleteOfferView {
    pub id: Seq<char>,
    pub offer_type: Seq<char>,
    pub offerer: Option<PubAccountInfoView>,
    pub min_amount: u128,
    pub max_amount: u128,
    pub offer_rate: u64,
    pub active: bool,
    pub payment: Option<PaymentMethodView>,
    pub currency: Seq<char>,
    pub instructions: Seq<char>,
}

/// An offer together with what is known of its author and its payment method.
#[derive(Debug)]
pub struct CompleteOffer {
    pub id: String,
    /// `buy` or `sell`.
    pub offer_type: String,
    pub offerer: Option<PubAccountInfo>,
    pub min_amount: u128,
    pub max_amount: u128,
    /// The price asked, in millionths.
    pub offer_rate: u64,
    pub active: bool,
    pub payment: Option<PaymentMethod>,
    pub currency: String,
    pub instructions: String,
}

impl View for CompleteOffer {
    type V = CompleteOfferView;

    open spec fn view(&self) -> CompleteOfferView {
        CompleteOfferView {
            id: self.id@,
            offer_type: self.offer_type@,
            offerer: match self.offerer {
                Some(x) => Some(x@),
                None => None,
            },
            min_amount: self.min_amount,
            max_amount: self.max_amount,
            offer_rate: self.offer_rate,
            active: self.active,
            payment: match self.payment {
                Some(x) => Some(x@),
                None => None,
            },
            currency: self.currency@,
            instructions: self.instructions@,
        }
    }
}

impl Clone for CompleteOffer {
    fn clone(&self) -> (r: Self)
        ensures
            r@ == self@,
    {
        CompleteOffer {
            id: self.id.clone(),
            offer_type: self.offer_type.clone(),
            offerer: match &self.offerer {
                Some(x) => Some(x.clone()),
                None => None,
            },
            min_amount: self.min_amount,
            max_amount: self.max_amount,
            offer_rate: self.offer_rate,
            active: self.active,
            payment: match &self.payment {
                Some(x) => Some(x.clone()),
                None => None,
            },
            currency: self.currency.clone(),
            instructions: self.instructions.clone(),
        }
    }
}
impl Offer {
    /// A new offer, which is active.
    pub fn new(
        id: String,
        offer_type: String,
        offerer: AccountId,
        min_amount: u128,
        max_amount: u128,
        offer_rate: u64,
        payment: String,
        currency: String,
        instructions: String,
    ) -> (r: Self)
        ensures
            r@ == (OfferView {
                id: id@,
                offer_type: offer_type@,
                offerer: offerer@,
                min_amount,
                max_amount,
                offer_rate,
                active: true,
                payment: payment@,
                currency: currency@,
                instructions: instructions@,
            }),
    {
        Self {
            id,
            offer_type,
            offerer,
            min_amount,
            max_amount,
            offer_rate,
            payment,
            currency,
            instructions,
            active: true,
        }
    }

    /// Sets the price asked, in millionths.
    pub fn update_offer_rate(&mut self, offer_rate: u64)
        ensures
            final(self)@ == (OfferView { offer_rate, ..old(self)@ }),
    {
        self.offer_rate = offer_rate;
    }

    /// Opens or closes the offer.
    pub fn update_offer_status(&mut self, active: bool)
        ensures
            final(self)@ == (OfferView { active, ..old(self)@ }),
    {
        self.active = active;
    }

    /// The offer with its payment method filled in and its author left
    /// open.
    pub fn make_complete_offer(&self, payment: Option<PaymentMethod>) -> (r: CompleteOffer)
        ensures
            r@ == self@.complete(
                match payment {
                    Some(p) => Some(p@),
                    None => None,
                },
                None,
            ),
    {
        CompleteOffer {
            id: self.id.clone(),
            offer_type: self.offer_type.clone(),
            offerer: None,
            min_amount: self.min_amount,
            max_amount: self.max_amount,
            offer_rate: self.offer_rate,
            active: self.active,
            payment,
            currency: self.currency.clone(),
            instructions: self.instructions.clone(),
        }
    }
}

impl OfferView {
    /// The offer with what is known of its payment method and its author.
    pub open spec fn complete(
        self,
        payment: Option<PaymentMethodView>,
        offerer: Option<PubAccountInfoView>,
    ) -> CompleteOfferView {
        CompleteOfferView {
            id: self.id,
            offer_type: self.offer_type,
            offerer,
            min_amount: self.min_amount,
            max_amount: self.max_amount,
            offer_rate: self.offer_rate,
            active: self.active,
            payment,
            currency: self.currency,
            instructions: self.instructions,
        }
    }
}

impl ContractView {
    /// Records an offer of `offerer`, who must be registered, under an id
    /// that is not in use: an offer is never replaced. An offer to buy is
    /// always taken; any other is taken where the spendable balance of its
    /// author covers the largest amount it offers.
    pub open spec fn add_offer(
        self,
        id: Seq<char>,
        offer_type: Seq<char>,
        offerer: Seq<char>,
        min_amount: u128,
        max_amount: u128,
        offer_rate: u64,
        payment: Seq<char>,
        currency: Seq<char>,
        instructions: Seq<char>,
    ) -> Result<(Seq<char>, ContractView), Fault> {
        if self.offers.contains_key(id) {
            Ok(("Offer already exists"@, self))
        } else if !self.accounts.contains_key(offerer) {
            Err(Fault::AccountNotFound)
        } else if is_buy(offer_type) || self.accounts[offerer].balance >= max_amount {
            Ok(
                (
                    "Offer created successfully"@,
                    ContractView {
                        offers: self.offers.insert(
                            id,
                            OfferView {
                                id,
                                offer_type,
                                offerer,
                                min_amount,
                                max_amount,
                                offer_rate,
                                active: true,
                                payment,
                                currency,
                                instructions,
                            },
                        ),
                        ..self
                    },
                ),
            )
        } else {
            Ok(("You do not have enough balance to add offer"@, self))
        }
    }

    /// Opens or closes the offer `offer_id`.
    pub open spec fn update_offer_status(self, offer_id: Seq<char>, active: bool) -> Result<
        ContractView,
        Fault,
    > {
        if !self.offers.contains_key(offer_id) {
            Err(Fault::OfferNotFound)
        } else {
            Ok(
                ContractView {
                    offers: self.offers.insert(
                        offer_id,
                        OfferView { active, ..self.offers[offer_id] },
                    ),
                    ..self
                },
            )
        }
    }
}

impl ContractView {
    /// The number of offers that `account` wrote.
    pub open spec fn offers_of(self, account: Seq<char>) -> nat {
        self.offers.values().filter(|o: OfferView| o.offerer == account).len()
    }

    /// An offer with its payment method and what is public of its author.
    pub open spec fn completed(self, o: OfferView) -> CompleteOfferView {
        o.complete(self.payment(o.payment), self.pub_info(o.offerer))
    }

    /// The offers of the type `offer_type`, completed, in listing order.
    pub open spec fn offers_of_type(self, offer_type: Seq<char>) -> Seq<CompleteOfferView> {
        self.offers.values().filter(|o: OfferView| o.offer_type == offer_type).map_values(
            |o: OfferView| self.completed(o),
        )
    }
}

impl Contract {
    /// Records an offer. Answers whether the offer was taken.
    pub fn add_offer(
        &mut self,
        id: String,
        offer_type: String,
        offerer: AccountId,
        min_amount: u128,
        max_amount: u128,
        offer_rate: u64,
        payment: String,
        currency: String,
        instructions: String,
    ) -> (r: Result<String, Fault>)
        ensures
            said(
                r,
                *old(self),
                *final(self),
                old(self)@.add_offer(
                    id@,
                    offer_type@,
                    offerer@,
                    min_amount,
                    max_amount,
                    offer_rate,
                    payment@,
                    currency@,
                    instructions@,
                ),
            ),
    {
        broadcast use group_views;

        if self.offers.contains_key(&id) {
            return Ok("Offer already exists".to_string());
        }
        let account = match self.accounts.get(offerer.as_string()) {
            Some(a) => a,
            None => {
                return Err(Fault::AccountNotFound);
            },
        };
        if offer_type == "buy".to_string() || account.balance >= max_amount {
            let offer = Offer::new(
                id.clone(),
                offer_type,
                offerer,
                min_amount,
                max_amount,
                offer_rate,
                payment,
                currency,
                instructions,
            );
            self.offers.insert(id, offer);
            Ok("Offer created successfully".to_string())
        } else {
            Ok("You do not have enough balance to add offer".to_string())
        }
    }

    /// The offers that `account_id` wrote, in listing order.
    pub fn get_account_offers(&self, account_id: AccountId) -> (r: Vec<Offer>)
        ensures
            seq_views(r@) == self@.offers.values().filter(|o: OfferView| o.offerer == account_id@),
    {
        broadcast use group_views;

        proof {
            use_type_invariant(&self.offers);
            self.offers.lemma_listing();
            lemma_views_values(self.offers@);
        }
        let ghost pred = |o: OfferView| o.offerer == account_id@;
        let ghost all = self@.offers.values();
        let mut out: Vec<Offer> = Vec::new();
        let n = self.offers.len();
        let mut i: usize = 0;
        proof {
            lemma_filter_start(all, pred);
        }
        while i < n
            invariant
                i <= n,
                n == self.offers@.len(),
                all == seq_views(self.offers@.values()),
                pred == (|o: OfferView| o.offerer == account_id@),
                seq_views(out@) == all.take(i as int).filter(pred),
                i == n && i > 0 ==> all.take(i as int) == all,
            decreases n - i,
        {
            proof {
                lemma_filter_step(all, i as int, pred);
            }
            let offer = self.offers.value_at(i);
            if offer.offerer == account_id {
                out.push(offer.clone());
            }
            i += 1;
        }
        out
    }

    /// The number of offers that `account_id` wrote.
    pub fn get_offers_len_by_account(&self, account_id: AccountId) -> (n: usize)
        ensures
            n == self@.offers_of(account_id@),
    {
        let found = self.get_account_offers(account_id);
        found.len()
    }

    /// A copy of the offer recorded under `offer_id`.
    pub fn get_offer(&self, offer_id: String) -> (r: Option<Offer>)
        ensures
            match r {
                Some(o) => self@.offers.contains_key(offer_id@) && o@ == self@.offers[offer_id@],
                None => !self@.offers.contains_key(offer_id@),
            },
    {
        broadcast use group_views;

        match self.offers.get(&offer_id) {
            Some(o) => Some(o.clone()),
            None => None,
        }
    }

    /// The offer completed with its payment method and its author.
    fn complete_offer(&self, offer: &Offer) -> (r: CompleteOffer)
        ensures
            r@ == self@.completed(offer@),
    {
        let payment = self.get_payment(offer.payment.clone());
        let mut complete = offer.make_complete_offer(payment);
        complete.offerer = self.acc_pub_info(offer.offerer.clone());
        complete
    }

    /// The offer recorded under `offer_id`, completed with its payment
    /// method and what is public of its author.
    pub fn pub_get_offer(&self, offer_id: String) -> (r: Option<CompleteOffer>)
        ensures
            match r {
                Some(o) => self@.offers.contains_key(offer_id@) && o@ == self@.completed(
                    self@.offers[offer_id@],
                ),
                None => !self@.offers.contains_key(offer_id@),
            },
    {
        broadcast use group_views;

        match self.offers.get(&offer_id) {
            Some(o) => Some(self.complete_offer(o)),
            None => None,
        }
    }

    /// The offers of one type, completed, in listing order.
    fn list_offers(&self, offer_type: &String) -> (r: Vec<CompleteOffer>)
        ensures
            seq_views(r@) == self@.offers_of_type(offer_type@),
    {
        broadcast use group_views;

        proof {
            use_type_invariant(&self.offers);
            self.offers.lemma_listing();
            lemma_views_values(self.offers@);
        }
        let ghost pred = |o: OfferView| o.offer_type == offer_type@;
        let ghost f = |o: OfferView| self@.completed(o);
        let ghost all = self@.offers.values();
        let mut out: Vec<CompleteOffer> = Vec::new();
        let n = self.offers.len();
        let mut i: usize = 0;
        proof {
            lemma_filter_start(all, pred);
            lemma_map_values_push(Seq::<OfferView>::empty(), all[0], f);
        }
        while i < n
            invariant
                i <= n,
                n == self.offers@.len(),
                all == seq_views(self.offers@.values()),
                pred == (|o: OfferView| o.offer_type == offer_type@),
                f == (|o: OfferView| self@.completed(o)),
                seq_views(out@) == all.take(i as int).filter(pred).map_values(f),
                i == n && i > 0 ==> all.take(i as int) == all,
            decreases n - i,
        {
            proof {
                lemma_filter_step(all, i as int, pred);
                lemma_map_values_push(all.take(i as int).filter(pred), all[i as int], f);
            }
            let offer = self.offers.value_at(i);
            if offer.offer_type == *offer_type {
                out.push(self.complete_offer(offer));
            }
            i += 1;
        }
        out
    }

    /// The offers to buy, completed, in listing order.
    pub fn get_buy_offers(&self) -> (r: Vec<CompleteOffer>)
        ensures
            seq_views(r@) == self@.offers_of_type("buy"@),
    {
        self.list_offers(&"buy".to_string())
    }

    /// The offers to sell, completed, in listing order.
    pub fn get_sell_offers(&self) -> (r: Vec<CompleteOffer>)
        ensures
            seq_views(r@) == self@.offers_of_type("sell"@),
    {
        self.list_offers(&"sell".to_string())
    }

    /// Opens or closes the offer `offer_id`.
    pub fn update_offer_status(&mut self, offer_id: String, active: bool) -> (r: Result<(), Fault>)
        ensures
            done(r, *old(self), *final(self), old(self)@.update_offer_status(offer_id@, active)),
    {
        broadcast use group_views;

        let mut offer = match self.offers.get(&offer_id) {
            Some(o) => o.clone(),
            None => {
                return Err(Fault::OfferNotFound);
            },
        };
        offer.update_offer_status(active);
        self.offers.insert(offer_id, offer);
        Ok(())
    }

    /// Takes out every offer.
    pub fn clear_offers(&mut self)
        ensures
            final(self)@ == (ContractView { offers: Listing::empty(), ..old(self)@ }),
    {
        broadcast use group_views;

        self.offers.clear();
    }
}

} // verus!
