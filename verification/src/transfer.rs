//! The log of native funds that moved into or out of the ledger.
use crate::account_id::AccountId;
use crate::registry::{group_views, lemma_filter_start, lemma_filter_step, seq_views};
use crate::{Contract, ContractView};
use vstd::prelude::*;

verus! {

/// A transfer as a mathematical value.
pub struct TransferView {
    pub id: Seq<char>,
    pub sender: Seq<char>,
    pub receiver: Seq<char>,
    pub amount: u128,
    pub timestamp: u64,
}

/// A movement of native funds into or out of the ledger.
#[derive(Debug)]
pub struct Transfer {
    pub id: String,
    pub sender: AccountId,
    pub receiver: AccountId,
    pub amount: u128,
    pub timestamp: u64,
}

impl View for Transfer {
    type V = TransferView;

    open spec fn view(&self) -> TransferView {
        TransferView {
            id: self.id@,
            sender: self.sender@,
            receiver: self.receiver@,
            amount: self.amount,
            timestamp: self.timestamp,
        }
    }
}

impl Clone for Transfer {
    fn clone(&self) -> (r: Self)
        ensures
            r@ == self@,
    {
        Transfer {
            id: self.id.clone(),
            sender: self.sender.clone(),
            receiver: self.receiver.clone(),
            amount: self.amount,
            timestamp: self.timestamp,
        }
    }
}
impl Transfer {
    /// A transfer recorded at time `timestamp`.
    pub fn new(id: String, sender: AccountId, receiver: AccountId, amount: u128, timestamp: u64) -> (r:
        Self)
        ensures
            r@ == (TransferView {
                id: id@,
                sender: sender@,
                receiver: receiver@,
                amount,
                timestamp,
            }),
    {
        Self { id, sender, receiver, amount, timestamp }
    }
}

impl TransferView {
    /// Whether `account` sent or received the transfer.
    pub open spec fn involves(self, account: Seq<char>) -> bool {
        self.sender == account || self.receiver == account
    }
}

impl Contract {
    /// Appends a transfer to the log.
    pub fn add_transfer(
        &mut self,
        id: String,
        sender: AccountId,
        receiver: AccountId,
        amount: u128,
        timestamp: u64,
    )
        ensures
            final(self)@ == (ContractView {
                transfers: old(self)@.transfers.push(
                    TransferView { id: id@, sender: sender@, receiver: receiver@, amount, timestamp },
                ),
                ..old(self)@
            }),
    {
        broadcast use group_views;

        let transfer = Transfer::new(id, sender, receiver, amount, timestamp);
        self.transfers.push(transfer);
    }

    /// The number of transfers in the log.
    pub fn get_transfers_len(&self) -> (n: u64)
        ensures
            n == self@.transfers.len(),
    {
        self.transfers.len() as u64
    }

    /// The first transfer in the log with the id `id`.
    pub fn get_transfer(&self, id: String) -> (r: Option<Transfer>)
        ensures
            match r {
                Some(t) => exists|i: int|
                    0 <= i < self@.transfers.len() && self@.transfers[i] == t@ && t@.id == id@
                        && forall|j: int| 0 <= j < i ==> self@.transfers[j].id != id@,
                None => forall|j: int| 0 <= j < self@.transfers.len() ==> self@.transfers[j].id != id@,
            },
    {
        let mut i: usize = 0;
        while i < self.transfers.len()
            invariant
                i <= self.transfers.len(),
                forall|j: int| 0 <= j < i ==> self@.transfers[j].id != id@,
            decreases self.transfers.len() - i,
        {
            if self.transfers[i].id == id {
                assert(self@.transfers[i as int] == self.transfers[i as int]@);
                return Some(self.transfers[i].clone());
            }
            i += 1;
        }
        None
    }

    /// The transfers that `account_id` sent or received, oldest first.
    pub fn get_account_transfers(&self, account_id: AccountId) -> (r: Vec<Transfer>)
        ensures
            seq_views(r@) == self@.transfers.filter(|t: TransferView| t.involves(account_id@)),
    {
        broadcast use group_views;

        let ghost pred = |t: TransferView| t.involves(account_id@);
        let mut out: Vec<Transfer> = Vec::new();
        let mut i: usize = 0;
        proof {
            lemma_filter_start(self@.transfers, pred);
        }
        while i < self.transfers.len()
            invariant
                i <= self.transfers.len(),
                pred == (|t: TransferView| t.involves(account_id@)),
                seq_views(out@) == self@.transfers.take(i as int).filter(pred),
                i == self.transfers.len() && i > 0 ==> self@.transfers.take(i as int)
                    == self@.transfers,
            decreases self.transfers.len() - i,
        {
            proof {
                lemma_filter_step(self@.transfers, i as int, pred);
            }
            if self.transfers[i].sender == account_id || self.transfers[i].receiver == account_id {
                out.push(self.transfers[i].clone());
            }
            i += 1;
        }
        out
    }

    /// Every transfer in the log, oldest first.
    pub fn get_all_transfers(&self) -> (r: Vec<Transfer>)
        ensures
            seq_views(r@) == self@.transfers,
    {
        let mut out: Vec<Transfer> = Vec::new();
        let mut i: usize = 0;
        while i < self.transfers.len()
            invariant
                i <= self.transfers.len(),
                out.len() == i,
                forall|j: int| 0 <= j < i ==> out[j]@ == self.transfers[j]@,
            decreases self.transfers.len() - i,
        {
            out.push(self.transfers[i].clone());
            i += 1;
        }
        out
    }

    /// The number of transfers that `account_id` sent or received.
    pub fn get_transfers_len_by_account(&self, account_id: AccountId) -> (n: usize)
        ensures
            n == self@.transfers.filter(|t: TransferView| t.involves(account_id@)).len(),
    {
        let found = self.get_account_transfers(account_id);
        found.len()
    }
}

} // verus!
