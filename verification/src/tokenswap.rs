//! Swaps of one token for another.
use vstd::prelude::*;

verus! {

/// A token swap as a mathematical value.
pub struct TokenSwapView {
    pub id: Seq<char>,
    pub from_token: Seq<char>,
    pub to_token: Seq<char>,
    pub from_token_amount: u64,
    pub timestamp: u64,
}

/// A swap of one token for another.
#[derive(Debug)]
pub struct TokenSwap {
    pub id: String,
    pub from_token: String,
    pub to_token: String,
    pub from_token_amount: u64,
    pub timestamp: u64,
}

impl View for TokenSwap {
    type V = TokenSwapView;

    open spec fn view(&self) -> TokenSwapView {
        TokenSwapView {
            id: self.id@,
            from_token: self.from_token@,
            to_token: self.to_token@,
            from_token_amount: self.from_token_amount,
            timestamp: self.timestamp,
        }
    }
}

impl Clone for TokenSwap {
    fn clone(&self) -> (r: Self)
        ensures
            r@ == self@,
    {
        TokenSwap {
            id: self.id.clone(),
            from_token: self.from_token.clone(),
            to_token: self.to_token.clone(),
            from_token_amount: self.from_token_amount,
            timestamp: self.timestamp,
        }
    }
}
impl TokenSwap {
    /// A swap with its time not yet set.
    pub fn new(id: String, from_token: String, to_token: String, from_token_amount: u64) -> (r:
        Self)
        ensures
            r@ == (TokenSwapView {
                id: id@,
                from_token: from_token@,
                to_token: to_token@,
                from_token_amount,
                timestamp: 0,
            }),
    {
        Self { id, from_token, to_token, from_token_amount, timestamp: 0 }
    }
}

} // verus!
