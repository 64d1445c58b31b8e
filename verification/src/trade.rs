//! The log of completed trades.
use crate::account_id::AccountId;
use crate::registry::{group_views, lemma_filter_start, lemma_filter_step, seq_views};
use crate::{Contract, ContractView};
use vstd::prelude::*;

verus! {

/// A trade as a mathematical value.
pub struct TradeView {
    pub id: Seq<char>,
    pub trade_type: Seq<char>,
    pub seller: Seq<char>,
    pub buyer: Seq<char>,
    pub amount: u128,
    pub chat_id: Seq<char>,
    pub token_id: Seq<char>,
    pub start_timestamp: Option<u64>,
    pub end_timestamp: Option<u64>,
}

/// A completed trade.
#[derive(Debug)]
pub struct Trade {
    pub id: String,
    pub trade_type: String,
    pub seller: AccountId,
    pub buyer: AccountId,
    pub amount: u128,
    pub chat_id: String,
    pub token_id: String,
    pub start_timestamp: Option<u64>,
    pub end_timestamp: Option<u64>,
}

impl View for Trade {
    type V = TradeView;

    open spec fn view(&self) -> TradeView {
        TradeView {
            id: self.id@,
            trade_type: self.trade_type@,
            seller: self.seller@,
            buyer: self.buyer@,
            amount: self.amount,
            chat_id: self.chat_id@,
            token_id: self.token_id@,
            start_timestamp: self.start_timestamp,
            end_timestamp: self.end_timestamp,
        }
    }
}

impl Clone for Trade {
    fn clone(&self) -> (r: Self)
        ensures
            r@ == self@,
    {
        Trade {
            id: self.id.clone(),
            trade_type: self.trade_type.clone(),
            seller: self.seller.clone(),
            buyer: self.buyer.clone(),
            amount: self.amount,
            chat_id: self.chat_id.clone(),
            token_id: self.token_id.clone(),
            start_timestamp: self.start_timestamp,
            end_timestamp: self.end_timestamp,
        }
    }
}
impl Trade {
    /// A record of a trade.
    pub fn new(
        id: String,
        trade_type: String,
        seller: AccountId,
        buyer: AccountId,
        amount: u128,
        chat_id: String,
        token_id: String,
        start_timestamp: Option<u64>,
        end_timestamp: Option<u64>,
    ) -> (r: Self)
        ensures
            r@ == (TradeView {
                id: id@,
                trade_type: trade_type@,
                seller: seller@,
                buyer: buyer@,
                amount,
                chat_id: chat_id@,
                token_id: token_id@,
                start_timestamp,
                end_timestamp,
            }),
    {
        Self {
            id,
            trade_type,
            seller,
            buyer,
            amount,
            chat_id,
            token_id,
            start_timestamp,
            end_timestamp,
        }
    }

    /// Sets the end of the trade to `now`.
    pub fn update_end_timestamp(&mut self, now: u64)
        ensures
            final(self)@ == (TradeView { end_timestamp: Some(now), ..old(self)@ }),
    {
        self.end_timestamp = Some(now);
    }

    /// Sets the chat in which the trade was made.
    pub fn update_chat_id(&mut self, chat_id: String)
        ensures
            final(self)@ == (TradeView { chat_id: chat_id@, ..old(self)@ }),
    {
        self.chat_id = chat_id;
    }

    /// Sets the amount that was traded.
    pub fn update_amount(&mut self, amount: u128)
        ensures
            final(self)@ == (TradeView { amount, ..old(self)@ }),
    {
        self.amount = amount;
    }
}

impl TradeView {
    /// Whether `account` sold or bought in the trade.
    pub open spec fn involves(self, account: Seq<char>) -> bool {
        self.seller == account || self.buyer == account
    }
}

impl Contract {
    /// Appends a trade to the log.
    pub fn add_trade(
        &mut self,
        id: String,
        trade_type: String,
        seller: AccountId,
        buyer: AccountId,
        amount: u128,
        chat_id: String,
        token_id: String,
        start_timestamp: Option<u64>,
        end_timestamp: Option<u64>,
    )
        ensures
            final(self)@ == (ContractView {
                trades: old(self)@.trades.push(
                    TradeView {
                        id: id@,
                        trade_type: trade_type@,
                        seller: seller@,
                        buyer: buyer@,
                        amount,
                        chat_id: chat_id@,
                        token_id: token_id@,
                        start_timestamp,
                        end_timestamp,
                    },
                ),
                ..old(self)@
            }),
    {
        broadcast use group_views;

        let trade = Trade::new(
            id,
            trade_type,
            seller,
            buyer,
            amount,
            chat_id,
            token_id,
            start_timestamp,
            end_timestamp,
        );
        self.trades.push(trade);
    }

    /// The first trade in the log with the id `id`.
    pub fn get_trade(&self, id: String) -> (r: Option<Trade>)
        ensures
            match r {
                Some(t) => exists|i: int|
                    0 <= i < self@.trades.len() && self@.trades[i] == t@ && t@.id == id@
                        && forall|j: int| 0 <= j < i ==> self@.trades[j].id != id@,
                None => forall|j: int| 0 <= j < self@.trades.len() ==> self@.trades[j].id != id@,
            },
    {
        let mut i: usize = 0;
        while i < self.trades.len()
            invariant
                i <= self.trades.len(),
                forall|j: int| 0 <= j < i ==> self@.trades[j].id != id@,
            decreases self.trades.len() - i,
        {
            if self.trades[i].id == id {
                assert(self@.trades[i as int] == self.trades[i as int]@);
                return Some(self.trades[i].clone());
            }
            i += 1;
        }
        None
    }

    /// Every trade in the log, oldest first.
    pub fn get_all_trades(&self) -> (r: Vec<Trade>)
        ensures
            seq_views(r@) == self@.trades,
    {
        let mut out: Vec<Trade> = Vec::new();
        let mut i: usize = 0;
        while i < self.trades.len()
            invariant
                i <= self.trades.len(),
                out.len() == i,
                forall|j: int| 0 <= j < i ==> out[j]@ == self.trades[j]@,
            decreases self.trades.len() - i,
        {
            out.push(self.trades[i].clone());
            i += 1;
        }
        out
    }

    /// The trades in which `account_id` sold or bought, oldest first.
    pub fn get_trades_by_account(&self, account_id: AccountId) -> (r: Vec<Trade>)
        ensures
            seq_views(r@) == self@.trades.filter(|t: TradeView| t.involves(account_id@)),
    {
        broadcast use group_views;

        let ghost pred = |t: TradeView| t.involves(account_id@);
        let mut out: Vec<Trade> = Vec::new();
        let mut i: usize = 0;
        proof {
            lemma_filter_start(self@.trades, pred);
        }
        while i < self.trades.len()
            invariant
                i <= self.trades.len(),
                pred == (|t: TradeView| t.involves(account_id@)),
                seq_views(out@) == self@.trades.take(i as int).filter(pred),
                i == self.trades.len() && i > 0 ==> self@.trades.take(i as int) == self@.trades,
            decreases self.trades.len() - i,
        {
            proof {
                lemma_filter_step(self@.trades, i as int, pred);
            }
            if self.trades[i].seller == account_id || self.trades[i].buyer == account_id {
                out.push(self.trades[i].clone());
            }
            i += 1;
        }
        out
    }

    /// The number of trades in which `account_id` sold or bought.
    pub fn get_trades_length_by_account(&self, account_id: AccountId) -> (n: usize)
        ensures
            n == self@.trades.filter(|t: TradeView| t.involves(account_id@)).len(),
    {
        let found = self.get_trades_by_account(account_id);
        found.len()
    }
}

} // verus!
