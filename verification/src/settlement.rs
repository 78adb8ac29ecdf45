//! The settlement engine: the two legs of a purchase, as a machine that
//! names one call on the token service at a time and moves on when it is
//! told the answer.
//!
//! The payment comes first: the price goes from the buyer to the
//! administrator. Then the prize is released: the contract asks what it holds
//! of the prize asset and sends all of it to the buyer. Any call that is
//! declined ends the purchase as rejected; the host then undoes the whole
//! invocation, so nothing is left half done.

use vstd::prelude::*;
use crate::env::Env;
use crate::error::AuctionError;
use crate::identity::{Auth, Identifier, Signature};
use crate::state::{
    get_contract_id, get_item_id, get_token_id, read_administrator, stored_asset, stored_identity,
};
use crate::store::{DataKey, StoredValue};
use crate::token::{TokenCall, TokenReply};

verus! {

/// Where a purchase stands.
#[derive(Clone, Copy, Debug, PartialEq, Eq)]
pub enum Settlement {
    /// The payment was asked for. Once it is made, the contract `holder`
    /// releases what it holds of `prize` to `buyer`.
    AwaitingPayment { prize: [u8; 32], holder: Identifier, buyer: Identifier },
    /// The payment was made; the contract's balance of `prize` was asked for.
    AwaitingBalance { prize: [u8; 32], buyer: Identifier },
    /// The transfer of the prize was asked for.
    AwaitingRelease,
    /// Both legs were made.
    Settled,
    /// A call was declined: the purchase failed.
    Rejected,
}

/// One step of a purchase: where it now stands, and the call to make next,
/// if there is one.
#[derive(Clone, Debug, PartialEq, Eq)]
pub struct Step {
    pub state: Settlement,
    pub call: Option<TokenCall>,
}

/// The authorization of every call that the contract makes: the invoker's
/// consent, nonce zero.
pub open spec fn own_auth() -> Auth {
    Auth { sig: Signature::Invoker, nonce: 0 }
}

/// The call that pays `amount` from `from` to the administrator, or
/// `Uninitialized` where the payment asset or the administrator is absent.
pub open spec fn payment_call(data: Map<DataKey, StoredValue>, from: Identifier, amount: i128) -> Result<
    TokenCall,
    AuctionError,
> {
    match (stored_asset(data, DataKey::TokenId), stored_identity(data, DataKey::Admin)) {
        (Some(asset), Some(admin)) => Ok(
            TokenCall::TransferFrom { asset, auth: own_auth(), from, to: admin, amount },
        ),
        _ => Err(AuctionError::Uninitialized),
    }
}

/// The step that begins the release of the prize to `to`: the contract asks
/// for its own balance of the prize asset. `Uninitialized` where the prize
/// asset is absent.
pub open spec fn release_step(data: Map<DataKey, StoredValue>, contract_id: [u8; 32], to: Identifier) -> Result<
    Step,
    AuctionError,
> {
    match stored_asset(data, DataKey::ItemId) {
        Some(prize) => Ok(
            Step {
                state: Settlement::AwaitingBalance { prize, buyer: to },
                call: Some(TokenCall::Balance { asset: prize, id: Identifier::Contract(contract_id) }),
            },
        ),
        None => Err(AuctionError::Uninitialized),
    }
}

/// The step that begins a purchase by `buyer` at `price`: the payment is
/// asked for. `Uninitialized` where the payment asset, the administrator or
/// the prize asset is absent.
pub open spec fn purchase_step(
    data: Map<DataKey, StoredValue>,
    contract_id: [u8; 32],
    buyer: Identifier,
    price: i128,
) -> Result<Step, AuctionError> {
    match (payment_call(data, buyer, price), stored_asset(data, DataKey::ItemId)) {
        (Ok(call), Some(prize)) => Ok(
            Step {
                state: Settlement::AwaitingPayment {
                    prize,
                    holder: Identifier::Contract(contract_id),
                    buyer,
                },
                call: Some(call),
            },
        ),
        _ => Err(AuctionError::Uninitialized),
    }
}

impl Settlement {
    /// How a purchase moves on when the token service has answered `reply`
    /// to the call that was last named.
    ///
    /// An answer that fits the call moves the purchase to its next call, or
    /// to `Settled` after the last. A purchase that has ended stays as it
    /// is. Any other answer ends it as `Rejected`.
    pub open spec fn spec_advance(self, reply: TokenReply) -> Step {
        match (self, reply) {
            (Settlement::AwaitingPayment { prize, holder, buyer }, TokenReply::Done) => Step {
                state: Settlement::AwaitingBalance { prize, buyer },
                call: Some(TokenCall::Balance { asset: prize, id: holder }),
            },
            (Settlement::AwaitingBalance { prize, buyer }, TokenReply::Balance(amount)) => Step {
                state: Settlement::AwaitingRelease,
                call: Some(TokenCall::Transfer { asset: prize, auth: own_auth(), to: buyer, amount }),
            },
            (Settlement::AwaitingRelease, TokenReply::Done) => Step {
                state: Settlement::Settled,
                call: None,
            },
            (Settlement::Settled, _) => Step { state: Settlement::Settled, call: None },
            _ => Step { state: Settlement::Rejected, call: None },
        }
    }

    /// How the purchase ended, or `None` while a call is still awaited.
    pub open spec fn spec_outcome(self) -> Option<Result<(), AuctionError>> {
        match self {
            Settlement::Settled => Some(Ok(())),
            Settlement::Rejected => Some(Err(AuctionError::TransferRejected)),
            _ => None,
        }
    }

    /// The number of calls that a purchase in this state still has to make
    /// at most, the awaited one included.
    pub open spec fn calls_left(self) -> nat {
        match self {
            Settlement::AwaitingPayment { .. } => 3,
            Settlement::AwaitingBalance { .. } => 2,
            Settlement::AwaitingRelease => 1,
            Settlement::Settled | Settlement::Rejected => 0,
        }
    }

    /// Moves the purchase on, given the answer to the call last named.
    pub fn advance(self, reply: TokenReply) -> (r: Step)
        ensures
            r == self.spec_advance(reply),
    {
        match self {
            Settlement::AwaitingPayment { prize, holder, buyer } => match reply {
                TokenReply::Done => Step {
                    state: Settlement::AwaitingBalance { prize, buyer },
                    call: Some(TokenCall::Balance { asset: prize, id: holder }),
                },
                _ => Step { state: Settlement::Rejected, call: None },
            },
            Settlement::AwaitingBalance { prize, buyer } => match reply {
                TokenReply::Balance(amount) => Step {
                    state: Settlement::AwaitingRelease,
                    call: Some(
                        TokenCall::Transfer { asset: prize, auth: Auth::invoker(), to: buyer, amount },
                    ),
                },
                _ => Step { state: Settlement::Rejected, call: None },
            },
            Settlement::AwaitingRelease => match reply {
                TokenReply::Done => Step { state: Settlement::Settled, call: None },
                _ => Step { state: Settlement::Rejected, call: None },
            },
            Settlement::Settled => Step { state: Settlement::Settled, call: None },
            Settlement::Rejected => Step { state: Settlement::Rejected, call: None },
        }
    }

    /// How the purchase ended, or `None` while a call is still awaited.
    pub fn outcome(&self) -> (r: Option<Result<(), AuctionError>>)
        ensures
            r == self.spec_outcome(),
    {
        match self {
            Settlement::Settled => Some(Ok(())),
            Settlement::Rejected => Some(Err(AuctionError::TransferRejected)),
            _ => None,
        }
    }
}

/// The call that pays `amount` of the payment asset from `from` to the
/// administrator, out of what `from` has allowed the contract to take.
///
/// `Uninitialized` exactly where the payment asset or the administrator was
/// never stored.
pub fn transfer_to_admin(e: &Env, from: &Identifier, amount: i128) -> (r: Result<
    TokenCall,
    AuctionError,
>)
    ensures
        r == payment_call(e.store@, *from, amount),
{
    let asset = match get_token_id(e) {
        Ok(asset) => asset,
        Err(err) => {
            return Err(err);
        },
    };
    let admin_id = match read_administrator(e) {
        Ok(id) => id,
        Err(err) => {
            return Err(err);
        },
    };
    Ok(TokenCall::TransferFrom { asset, auth: Auth::invoker(), from: *from, to: admin_id, amount })
}

/// Begins to empty the contract of the prize in favour of `to`: the
/// contract asks for its own balance of the prize asset, and the step that
/// follows the answer sends all of it to `to`.
///
/// `Uninitialized` exactly where the prize asset was never stored.
pub fn empty_contract(e: &Env, to: Identifier) -> (r: Result<Step, AuctionError>)
    ensures
        r == release_step(e.store@, e.contract_id, to),
{
    let prize = match get_item_id(e) {
        Ok(asset) => asset,
        Err(err) => {
            return Err(err);
        },
    };
    Ok(
        Step {
            state: Settlement::AwaitingBalance { prize, buyer: to },
            call: Some(TokenCall::Balance { asset: prize, id: get_contract_id(e) }),
        },
    )
}

/// Begins a purchase by `from` at `price`: names the payment, and keeps for
/// the release what `empty_contract` would read.
///
/// `Uninitialized` exactly where the payment asset, the administrator or the
/// prize asset was never stored.
pub fn begin_purchase(e: &Env, from: Identifier, price: i128) -> (r: Result<Step, AuctionError>)
    ensures
        r == purchase_step(e.store@, e.contract_id, from, price),
{
    let call = match transfer_to_admin(e, &from, price) {
        Ok(call) => call,
        Err(err) => {
            return Err(err);
        },
    };
    let prize = match get_item_id(e) {
        Ok(asset) => asset,
        Err(err) => {
            return Err(err);
        },
    };
    Ok(
        Step {
            state: Settlement::AwaitingPayment { prize, holder: get_contract_id(e), buyer: from },
            call: Some(call),
        },
    )
}

/// Once the payment is made, a purchase goes on exactly as `empty_contract`
/// begins: with the contract asking for its own balance of the prize.
pub proof fn lemma_release_follows_payment(
    data: Map<DataKey, StoredValue>,
    contract_id: [u8; 32],
    buyer: Identifier,
    price: i128,
)
    requires
        purchase_step(data, contract_id, buyer, price) is Ok,
    ensures
        Ok::<Step, AuctionError>(
            purchase_step(data, contract_id, buyer, price)->Ok_0.state.spec_advance(TokenReply::Done),
        ) == release_step(data, contract_id, buyer),
{
}

} // verus!
