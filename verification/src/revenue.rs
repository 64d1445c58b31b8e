//! The fees that the ledger has taken.
use crate::account::{Account, AccountView};
use crate::account_id::AccountId;
use crate::errors::Fault;
use crate::registry::group_views;
use crate::{done, Context, ContextView, Contract, ContractView};
use vstd::prelude::*;

verus! {

/// A revenue record as a mathematical value.
pub struct RevenueView {
    pub from: Seq<char>,
    pub asset: Seq<char>,
    pub amount_usd: Option<u128>,
    pub amount: u128,
    pub date: u64,
}

/// One fee that the ledger has taken.
#[derive(Debug)]
pub struct Revenue {
    /// What the fee was taken for: a trade or a transfer.
    pub from: String,
    /// The native currency or a token.
    pub asset: String,
    /// The fee in millionths of a dollar, where it is known.
    pub amount_usd: Option<u128>,
    pub amount: u128,
    pub date: u64,
}

impl View for Revenue {
    type V = RevenueView;

    open spec fn view(&self) -> RevenueView {
        RevenueView {
            from: self.from@,
            asset: self.asset@,
            amount_usd: self.amount_usd,
            amount: self.amount,
            date: self.date,
        }
    }
}

impl Clone for Revenue {
    fn clone(&self) -> (r: Self)
        ensures
            r@ == self@,
    {
        Revenue {
            from: self.from.clone(),
            asset: self.asset.clone(),
            amount_usd: self.amount_usd,
            amount: self.amount,
            date: self.date,
        }
    }
}
/// The dollar value that is added to the total for a fee: nothing where
/// it is not known.
pub open spec fn usd_of(amount_usd: Option<u128>) -> u128 {
    match amount_usd {
        Some(v) => v,
        None => 0,
    }
}

impl ContractView {
    /// The entry of `account` after a fee of `amount` was taken from it:
    /// the fee is unlocked and then withdrawn by the caller.
    pub open spec fn fee_taken(self, caller: Seq<char>, account: Seq<char>, amount: u128) -> Result<
        AccountView,
        Fault,
    > {
        if !self.accounts.contains_key(account) {
            Err(Fault::AccountNotFound)
        } else {
            match self.accounts[account].unlock(amount) {
                Ok(unlocked) => unlocked.withdraw(caller, amount),
                Err(e) => Err(e),
            }
        }
    }

    /// Books a fee: `amount` is taken from the locked funds of `account`
    /// and added to the revenue, and a record of it is appended.
    pub open spec fn create_revenue(
        self,
        ctx: ContextView,
        asset: Seq<char>,
        from: Seq<char>,
        account: Seq<char>,
        amount: u128,
        amount_usd: Option<u128>,
    ) -> Result<ContractView, Fault> {
        match self.fee_taken(ctx.predecessor_account_id, account, amount) {
            Err(e) => Err(e),
            Ok(paid) => if self.revenue + amount > u128::MAX || self.revenue_usd + usd_of(
                amount_usd,
            ) > u128::MAX {
                Err(Fault::Overflow)
            } else {
                Ok(
                    ContractView {
                        accounts: self.accounts.insert(account, paid),
                        revenue: (self.revenue + amount) as u128,
                        revenue_usd: (self.revenue_usd + usd_of(amount_usd)) as u128,
                        revenues: self.revenues.push(
                            RevenueView {
                                from,
                                asset,
                                amount_usd,
                                amount,
                                date: ctx.block_timestamp,
                            },
                        ),
                        ..self
                    },
                )
            },
        }
    }
}

/// A fee that has been checked and can be booked without fail.
pub(crate) struct PlannedFee {
    pub account: Account,
    pub revenue: u128,
    pub revenue_usd: u128,
    pub record: Revenue,
}

impl Contract {
    /// Checks a fee without booking it, and returns what booking it will
    /// store.
    pub(crate) fn plan_revenue(
        &self,
        ctx: &Context,
        asset: String,
        from: String,
        account: &AccountId,
        amount: u128,
        amount_usd: Option<u128>,
    ) -> (r: Result<PlannedFee, Fault>)
        ensures
            match self@.create_revenue(ctx@, asset@, from@, account@, amount, amount_usd) {
                Ok(next) => r matches Ok(plan) && next == (ContractView {
                    accounts: self@.accounts.insert(account@, plan.account@),
                    revenue: plan.revenue,
                    revenue_usd: plan.revenue_usd,
                    revenues: self@.revenues.push(plan.record@),
                    ..self@
                }),
                Err(e) => r matches Err(f) && f == e,
            },
    {
        broadcast use group_views;

        let mut entry = match self.accounts.get(account.as_string()) {
            Some(a) => a.clone(),
            None => {
                return Err(Fault::AccountNotFound);
            },
        };
        entry.unlock(amount)?;
        entry.withdraw(&ctx.predecessor_account_id, amount)?;
        let usd = match amount_usd {
            Some(v) => v,
            None => 0,
        };
        if amount > u128::MAX - self.revenue || usd > u128::MAX - self.revenue_usd {
            return Err(Fault::Overflow);
        }
        Ok(
            PlannedFee {
                account: entry,
                revenue: self.revenue + amount,
                revenue_usd: self.revenue_usd + usd,
                record: Revenue { from, asset, amount_usd, amount, date: ctx.block_timestamp },
            },
        )
    }

    /// Books a fee that was planned for `account`.
    pub(crate) fn book_revenue(&mut self, account: &AccountId, plan: PlannedFee)
        ensures
            final(self)@ == (ContractView {
                accounts: old(self)@.accounts.insert(account@, plan.account@),
                revenue: plan.revenue,
                revenue_usd: plan.revenue_usd,
                revenues: old(self)@.revenues.push(plan.record@),
                ..old(self)@
            }),
    {
        broadcast use group_views;

        self.accounts.insert(account.to_string(), plan.account);
        self.revenue = plan.revenue;
        self.revenue_usd = plan.revenue_usd;
        self.revenues.push(plan.record);
    }

    /// Books a fee: `amount` is taken from the locked funds of `account`
    /// and added to the revenue, and a record of it is appended. `asset`
    /// names what the fee was paid in, `from` what it was paid for.
    pub fn create_revenue(
        &mut self,
        ctx: &Context,
        asset: String,
        from: String,
        account: AccountId,
        amount: u128,
        amount_usd: Option<u128>,
    ) -> (r: Result<(), Fault>)
        ensures
            done(
                r,
                *old(self),
                *final(self),
                old(self)@.create_revenue(ctx@, asset@, from@, account@, amount, amount_usd),
            ),
    {
        let plan = self.plan_revenue(ctx, asset, from, &account, amount, amount_usd)?;
        self.book_revenue(&account, plan);
        Ok(())
    }
}

} // verus!
