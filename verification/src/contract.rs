//! The contract: its four operations, what each does to the instance, and
//! what holds of a purchase from its first call to its last.

use vstd::prelude::*;
use vstd::arithmetic::div_mod::lemma_div_pos_is_pos;
use crate::env::Env;
use crate::error::AuctionError;
use crate::identity::Identifier;
use crate::price::{
    compute_price, current_price, lemma_current_price_at_start, price_defined, quoted,
};
use crate::settlement::{begin_purchase, purchase_step, Settlement, Step};
use crate::state::{
    amount_or_zero, has_administrator, put_item_id, put_minimum_price, put_slope,
    put_starting_price, put_starting_time, put_token_id, read_administrator, read_nonce,
    stored_amount, stored_asset, stored_identity, stored_time, write_administrator,
};
use crate::store::{DataKey, StoredValue};
use crate::token::{TokenCall, Tokens};

verus! {

/// The store once the seven parts of the configuration are written into it.
pub open spec fn configured(
    data: Map<DataKey, StoredValue>,
    now: u64,
    admin: Identifier,
    token_id: [u8; 32],
    item_id: [u8; 32],
    starting_price: i128,
    minimum_price: i128,
    slope: i128,
) -> Map<DataKey, StoredValue> {
    data.insert(DataKey::Admin, StoredValue::Identity(admin)).insert(
        DataKey::TokenId,
        StoredValue::Asset(token_id),
    ).insert(DataKey::ItemId, StoredValue::Asset(item_id)).insert(
        DataKey::Price,
        StoredValue::Amount(starting_price),
    ).insert(DataKey::Timestamp, StoredValue::Time(now)).insert(
        DataKey::MinPrice,
        StoredValue::Amount(minimum_price),
    ).insert(DataKey::Slope, StoredValue::Amount(slope))
}

/// What `initialize` answers and what it leaves in the store: on an instance
/// that has an administrator it fails and changes nothing, on any other it
/// writes the configuration, with `now` as the start of the auction.
pub open spec fn spec_initialize(
    data: Map<DataKey, StoredValue>,
    now: u64,
    admin: Identifier,
    token_id: [u8; 32],
    item_id: [u8; 32],
    starting_price: i128,
    minimum_price: i128,
    slope: i128,
) -> (Result<(), AuctionError>, Map<DataKey, StoredValue>) {
    if data.contains_key(DataKey::Admin) {
        (Err(AuctionError::AlreadyInitialized), data)
    } else {
        (
            Ok(()),
            configured(data, now, admin, token_id, item_id, starting_price, minimum_price, slope),
        )
    }
}

/// The administrator's nonce, zero where none was stored; `Uninitialized`
/// where there is no administrator.
pub open spec fn spec_nonce(data: Map<DataKey, StoredValue>) -> Result<i128, AuctionError> {
    match stored_identity(data, DataKey::Admin) {
        Some(admin) => Ok(amount_or_zero(data, DataKey::Nonce(admin))),
        None => Err(AuctionError::Uninitialized),
    }
}

/// The first step of a purchase by `from` at `now`: the payment of the
/// current price is asked for. `Uninitialized` where a part of the
/// configuration that the purchase needs is absent.
pub open spec fn spec_buy(
    data: Map<DataKey, StoredValue>,
    now: u64,
    contract_id: [u8; 32],
    from: Identifier,
) -> Result<Step, AuctionError> {
    match current_price(data, now) {
        Ok(price) => purchase_step(data, contract_id, from, price as i128),
        Err(err) => Err(err),
    }
}

/// The operations of the auction contract.
pub trait AuctionContractTrait {
    /// Sets the administrator, the payment asset, the prize asset, the
    /// starting price, the floor and the decay rate, and starts the auction
    /// at the ledger time of the call. Nothing is checked of the values.
    ///
    /// Fails with `AlreadyInitialized`, and changes nothing, exactly where
    /// the instance has an administrator already.
    fn initialize(
        e: &mut Env,
        admin: Identifier,
        token_id: [u8; 32],
        item_id: [u8; 32],
        starting_price: i128,
        minimum_price: i128,
        slope: i128,
    ) -> (r: Result<(), AuctionError>)
        ensures
            (r, final(e).store@) == spec_initialize(
                old(e).store@,
                old(e).timestamp,
                admin,
                token_id,
                item_id,
                starting_price,
                minimum_price,
                slope,
            ),
            final(e).timestamp == old(e).timestamp,
            final(e).contract_id == old(e).contract_id,
    ;

    /// The nonce of the administrator.
    fn nonce(e: &Env) -> (r: Result<i128, AuctionError>)
        ensures
            r == spec_nonce(e.store@),
    ;

    /// `from` enters the auction at its current price: the first step of the
    /// purchase, which names the payment.
    fn buy(e: &Env, from: Identifier) -> (r: Result<Step, AuctionError>)
        requires
            price_defined(e.store@, e.timestamp),
        ensures
            r == spec_buy(e.store@, e.timestamp, e.contract_id, from),
    ;

    /// The current price of the auction.
    fn get_price(e: &Env) -> (r: Result<i128, AuctionError>)
        requires
            price_defined(e.store@, e.timestamp),
        ensures
            quoted(r) == current_price(e.store@, e.timestamp),
    ;
}

/// The auction contract.
pub struct AuctionContract;

impl AuctionContractTrait for AuctionContract {
    fn initialize(
        e: &mut Env,
        admin: Identifier,
        token_id: [u8; 32],
        item_id: [u8; 32],
        starting_price: i128,
        minimum_price: i128,
        slope: i128,
    ) -> (r: Result<(), AuctionError>) {
        if has_administrator(e) {
            return Err(AuctionError::AlreadyInitialized);
        }
        let time = e.timestamp;

        write_administrator(e, admin);
        put_token_id(e, token_id);
        put_item_id(e, item_id);
        put_starting_price(e, starting_price);
        put_starting_time(e, time);
        put_minimum_price(e, minimum_price);
        put_slope(e, slope);
        Ok(())
    }

    fn nonce(e: &Env) -> (r: Result<i128, AuctionError>) {
        match read_administrator(e) {
            Ok(admin) => Ok(read_nonce(e, &admin)),
            Err(err) => Err(err),
        }
    }

    fn buy(e: &Env, from: Identifier) -> (r: Result<Step, AuctionError>) {
        match compute_price(e) {
            Ok(price) => begin_purchase(e, from, price),
            Err(err) => Err(err),
        }
    }

    fn get_price(e: &Env) -> (r: Result<i128, AuctionError>) {
        compute_price(e)
    }
}

/// Initialization happens once: whatever a first call of `initialize` did, a
/// second call on the same instance fails with `AlreadyInitialized` and
/// leaves the store as the first call left it.
pub proof fn lemma_initialize_only_once(
    data: Map<DataKey, StoredValue>,
    first_now: u64,
    first_admin: Identifier,
    first_token_id: [u8; 32],
    first_item_id: [u8; 32],
    first_starting_price: i128,
    first_minimum_price: i128,
    first_slope: i128,
    second_now: u64,
    second_admin: Identifier,
    second_token_id: [u8; 32],
    second_item_id: [u8; 32],
    second_starting_price: i128,
    second_minimum_price: i128,
    second_slope: i128,
)
    ensures
        ({
            let after_first = spec_initialize(
                data,
                first_now,
                first_admin,
                first_token_id,
                first_item_id,
                first_starting_price,
                first_minimum_price,
                first_slope,
            ).1;
            spec_initialize(
                after_first,
                second_now,
                second_admin,
                second_token_id,
                second_item_id,
                second_starting_price,
                second_minimum_price,
                second_slope,
            ) == (Err::<(), AuctionError>(AuctionError::AlreadyInitialized), after_first)
        }),
{
}

/// What a successful `initialize` leaves to be read: each part of the
/// configuration as it was given, and the start of the auction at `now`.
pub proof fn lemma_configured_reads_back(
    data: Map<DataKey, StoredValue>,
    now: u64,
    admin: Identifier,
    token_id: [u8; 32],
    item_id: [u8; 32],
    starting_price: i128,
    minimum_price: i128,
    slope: i128,
)
    ensures
        ({
            let after = configured(
                data,
                now,
                admin,
                token_id,
                item_id,
                starting_price,
                minimum_price,
                slope,
            );
            &&& stored_identity(after, DataKey::Admin) == Some(admin)
            &&& stored_asset(after, DataKey::TokenId) == Some(token_id)
            &&& stored_asset(after, DataKey::ItemId) == Some(item_id)
            &&& amount_or_zero(after, DataKey::Price) == starting_price
            &&& amount_or_zero(after, DataKey::MinPrice) == minimum_price
            &&& stored_amount(after, DataKey::Slope) == Some(slope)
            &&& stored_time(after, DataKey::Timestamp) == Some(now)
        }),
{
}

/// An instance that was initialized with a positive decay rate serves at
/// every ledger time from its start on: the price can be told, a purchase
/// can begin, and the administrator's nonce can be read.
pub proof fn lemma_initialized_instance_serves(
    data: Map<DataKey, StoredValue>,
    now: u64,
    admin: Identifier,
    token_id: [u8; 32],
    item_id: [u8; 32],
    starting_price: i128,
    minimum_price: i128,
    slope: i128,
    later: u64,
    contract_id: [u8; 32],
    buyer: Identifier,
)
    requires
        slope > 0,
        now <= later,
    ensures
        ({
            let after = configured(
                data,
                now,
                admin,
                token_id,
                item_id,
                starting_price,
                minimum_price,
                slope,
            );
            &&& price_defined(after, later)
            &&& current_price(after, later) is Ok
            &&& spec_buy(after, later, contract_id, buyer) is Ok
            &&& spec_nonce(after) is Ok
        }),
{
    lemma_configured_reads_back(
        data,
        now,
        admin,
        token_id,
        item_id,
        starting_price,
        minimum_price,
        slope,
    );
}

/// At the ledger time at which it was initialized, an instance asks its
/// starting price, where that is not under the floor and the decay rate is
/// positive.
pub proof fn lemma_price_at_initialization(
    data: Map<DataKey, StoredValue>,
    now: u64,
    admin: Identifier,
    token_id: [u8; 32],
    item_id: [u8; 32],
    starting_price: i128,
    minimum_price: i128,
    slope: i128,
)
    requires
        slope > 0,
        minimum_price <= starting_price,
    ensures
        current_price(
            configured(data, now, admin, token_id, item_id, starting_price, minimum_price, slope),
            now,
        ) == Ok::<int, AuctionError>(starting_price as int),
{
    lemma_configured_reads_back(
        data,
        now,
        admin,
        token_id,
        item_id,
        starting_price,
        minimum_price,
        slope,
    );
    lemma_current_price_at_start(
        configured(data, now, admin, token_id, item_id, starting_price, minimum_price, slope),
        now,
    );
}

/// Plays a purchase to its end against the model of the token service:
/// each call that is named is answered by the model in the name of
/// `invoker`, and the answer moves the purchase on. Gives the state in which
/// the purchase ends, and the model as the calls left it.
pub open spec fn conclude(state: Settlement, call: Option<TokenCall>, tokens: Tokens, invoker: Identifier) -> (
    Settlement,
    Tokens,
)
    decreases
            (if call is Some {
                state.calls_left() + 1
            } else {
                0
            }),
{
    match call {
        Some(named) => {
            let (after, reply) = tokens.answer(invoker, named);
            let step = state.spec_advance(reply);
            conclude(step.state, step.call, after, invoker)
        },
        None => (state, tokens),
    }
}

/// What a whole `buy` invocation comes to, against the model of the token
/// service: the purchase is played from its first step to its end, with the
/// contract as the invoker of each call. Where it ends settled, the
/// transfers stand. Where it fails, at the start or at any call, the host
/// undoes the invocation and the balances are as they were.
pub open spec fn settle(
    data: Map<DataKey, StoredValue>,
    now: u64,
    contract_id: [u8; 32],
    buyer: Identifier,
    tokens: Tokens,
) -> (Result<(), AuctionError>, Tokens) {
    match spec_buy(data, now, contract_id, buyer) {
        Ok(step) => {
            let (end, after) = conclude(
                step.state,
                step.call,
                tokens,
                Identifier::Contract(contract_id),
            );
            if end == Settlement::Settled {
                (Ok(()), after)
            } else {
                (Err(AuctionError::TransferRejected), tokens)
            }
        },
        Err(err) => (Err(err), tokens),
    }
}

/// A purchase that fails leaves every balance and every allowance as it
/// was.
pub proof fn lemma_failed_purchase_changes_nothing(
    data: Map<DataKey, StoredValue>,
    now: u64,
    contract_id: [u8; 32],
    buyer: Identifier,
    tokens: Tokens,
)
    requires
        settle(data, now, contract_id, buyer, tokens).0 is Err,
    ensures
        settle(data, now, contract_id, buyer, tokens).1 == tokens,
{
}

/// A purchase by a buyer who has allowed the contract less than the current
/// price fails, and leaves every balance as it was.
pub proof fn lemma_underfunded_purchase_fails(
    data: Map<DataKey, StoredValue>,
    now: u64,
    contract_id: [u8; 32],
    buyer: Identifier,
    tokens: Tokens,
)
    requires
        price_defined(data, now),
        current_price(data, now) is Ok,
        stored_asset(data, DataKey::TokenId) matches Some(payment) && tokens.allowance(
            payment,
            buyer,
            Identifier::Contract(contract_id),
        ) < current_price(data, now)->Ok_0,
    ensures
        settle(data, now, contract_id, buyer, tokens).0 is Err,
        settle(data, now, contract_id, buyer, tokens).1 == tokens,
        spec_buy(data, now, contract_id, buyer) is Ok ==> settle(
            data,
            now,
            contract_id,
            buyer,
            tokens,
        ).0 == Err::<(), AuctionError>(AuctionError::TransferRejected),
{
    lemma_price_fits(data, now);
    reveal_with_fuel(conclude, 2);
}

/// The current price, where there is one, fits the type of an amount.
pub proof fn lemma_price_fits(data: Map<DataKey, StoredValue>, now: u64)
    requires
        price_defined(data, now),
    ensures
        current_price(data, now) matches Ok(price) ==> i128::MIN <= price <= i128::MAX,
{
    match (
        stored_time(data, DataKey::Timestamp),
        stored_amount(data, DataKey::Slope),
    ) {
        (Some(start), Some(rate)) => {
            lemma_div_pos_is_pos(now - start, rate as int);
        },
        _ => {},
    }
}

/// A purchase that succeeds moves exactly the current price from the buyer
/// to the administrator, in the payment asset, and everything that the
/// contract held of the prize asset to the buyer.
///
/// This is stated of a payment asset and a prize asset that differ, and of
/// a buyer who is neither the administrator nor the contract itself: an
/// administrator who buys is paid what it pays, and a contract that buys
/// from itself keeps the prize.
pub proof fn lemma_purchase_moves_price_and_prize(
    data: Map<DataKey, StoredValue>,
    now: u64,
    contract_id: [u8; 32],
    buyer: Identifier,
    tokens: Tokens,
)
    requires
        price_defined(data, now),
        settle(data, now, contract_id, buyer, tokens).0 is Ok,
        stored_asset(data, DataKey::TokenId) != stored_asset(data, DataKey::ItemId),
        stored_identity(data, DataKey::Admin) != Some(buyer),
        buyer != Identifier::Contract(contract_id),
    ensures
        ({
            let after = settle(data, now, contract_id, buyer, tokens).1;
            let contract = Identifier::Contract(contract_id);
            &&& current_price(data, now) matches Ok(price)
            &&& stored_asset(data, DataKey::TokenId) matches Some(payment)
            &&& stored_asset(data, DataKey::ItemId) matches Some(prize)
            &&& stored_identity(data, DataKey::Admin) matches Some(admin)
            &&& 0 <= price <= tokens.allowance(payment, buyer, contract)
            &&& after.balance(payment, buyer) == tokens.balance(payment, buyer) - price
            &&& after.balance(payment, admin) == tokens.balance(payment, admin) + price
            &&& after.balance(prize, contract) == 0
            &&& after.balance(prize, buyer) == tokens.balance(prize, buyer) + tokens.balance(
                prize,
                contract,
            )
            &&& price > 0 ==> after.balance(payment, buyer) < tokens.balance(payment, buyer)
        }),
{
    lemma_price_fits(data, now);
    reveal_with_fuel(conclude, 4);
}

} // verus!
