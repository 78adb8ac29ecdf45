//! The token service that the auction calls: the calls it takes, the answers
//! it gives, and a model of what the auction takes it to do.
//!
//! The service itself stands outside this crate. The auction hands out a
//! `TokenCall` for each thing it wants done and is handed back a
//! `TokenReply`. The model, `Tokens`, is what the laws of the settlement are
//! stated against.

use vstd::prelude::*;
use crate::identity::{Auth, Identifier};

verus! {

/// One call on the token service, made by the contract in its own name.
#[derive(Clone, Debug, PartialEq, Eq)]
pub enum TokenCall {
    /// Asks how much of `asset` belongs to `id`.
    Balance { asset: [u8; 32], id: Identifier },
    /// Moves `amount` of `asset` from the caller's own balance to `to`.
    Transfer { asset: [u8; 32], auth: Auth, to: Identifier, amount: i128 },
    /// Moves `amount` of `asset` from `from` to `to`, on the strength of what
    /// `from` has allowed the caller to take.
    TransferFrom { asset: [u8; 32], auth: Auth, from: Identifier, to: Identifier, amount: i128 },
}

/// What the token service answered to one call.
#[derive(Clone, Copy, Debug, PartialEq, Eq)]
pub enum TokenReply {
    /// The transfer was made.
    Done,
    /// The balance that was asked for.
    Balance(i128),
    /// The service declined the call; nothing was moved.
    Rejected,
}

/// A model of the token service: who owns how much of which asset, and how
/// much of it each owner has allowed each spender to take. A pair that the
/// maps do not hold stands for zero.
pub struct Tokens {
    pub balances: Map<([u8; 32], Identifier), i128>,
    pub allowances: Map<([u8; 32], Identifier, Identifier), i128>,
}

impl Tokens {
    /// How much of `asset` belongs to `id`.
    pub open spec fn balance(self, asset: [u8; 32], id: Identifier) -> i128 {
        if self.balances.contains_key((asset, id)) {
            self.balances[(asset, id)]
        } else {
            0
        }
    }

    /// How much of `asset` the owner has allowed the spender to take.
    pub open spec fn allowance(self, asset: [u8; 32], owner: Identifier, spender: Identifier) -> i128 {
        if self.allowances.contains_key((asset, owner, spender)) {
            self.allowances[(asset, owner, spender)]
        } else {
            0
        }
    }

    /// The model with the balance of `id` in `asset` set to `amount`.
    pub open spec fn with_balance(self, asset: [u8; 32], id: Identifier, amount: i128) -> Tokens {
        Tokens { balances: self.balances.insert((asset, id), amount), allowances: self.allowances }
    }

    /// The model with what the owner allows the spender set to `amount`.
    pub open spec fn with_allowance(
        self,
        asset: [u8; 32],
        owner: Identifier,
        spender: Identifier,
        amount: i128,
    ) -> Tokens {
        Tokens {
            balances: self.balances,
            allowances: self.allowances.insert((asset, owner, spender), amount),
        }
    }

    /// Whether `amount` of `asset` can go from `from` to `to`: it is not
    /// negative, `from` has it, and `to` can hold it.
    pub open spec fn can_move(self, asset: [u8; 32], from: Identifier, to: Identifier, amount: i128) -> bool {
        &&& 0 <= amount <= self.balance(asset, from)
        &&& from != to ==> self.balance(asset, to) + amount <= i128::MAX
    }

    /// The model after `amount` of `asset` has gone from `from` to `to`.
    pub open spec fn moved(self, asset: [u8; 32], from: Identifier, to: Identifier, amount: i128) -> Tokens {
        if from == to {
            self
        } else {
            self.with_balance(asset, from, (self.balance(asset, from) - amount) as i128).with_balance(
                asset,
                to,
                (self.balance(asset, to) + amount) as i128,
            )
        }
    }

    /// What the service does with one call of `invoker`, and what it answers.
    /// Every call is taken as made with the consent of its invoker.
    ///
    /// A balance is told and nothing changes. A transfer moves the amount out
    /// of the invoker's own balance. A transfer on behalf of an owner moves
    /// the amount out of the owner's balance and out of what the owner has
    /// allowed the invoker; it is declined where the owner has allowed less.
    /// A transfer that cannot be made is declined and changes nothing.
    pub open spec fn answer(self, invoker: Identifier, call: TokenCall) -> (Tokens, TokenReply) {
        match call {
            TokenCall::Balance { asset, id } => (self, TokenReply::Balance(self.balance(asset, id))),
            TokenCall::Transfer { asset, auth, to, amount } => {
                if self.can_move(asset, invoker, to, amount) {
                    (self.moved(asset, invoker, to, amount), TokenReply::Done)
                } else {
                    (self, TokenReply::Rejected)
                }
            },
            TokenCall::TransferFrom { asset, auth, from, to, amount } => {
                if amount <= self.allowance(asset, from, invoker) && self.can_move(
                    asset,
                    from,
                    to,
                    amount,
                ) {
                    (
                        self.with_allowance(
                            asset,
                            from,
                            invoker,
                            (self.allowance(asset, from, invoker) - amount) as i128,
                        ).moved(asset, from, to, amount),
                        TokenReply::Done,
                    )
                } else {
                    (self, TokenReply::Rejected)
                }
            },
        }
    }
}

} // verus!
