//! The price oracle: the price as a function of the configuration and the
//! ledger time.
//!
//! The price starts at the starting price and falls by one unit each time
//! the decay rate's worth of seconds has passed, until it reaches the floor,
//! where it stays.

use vstd::prelude::*;
use vstd::arithmetic::div_mod::{lemma_div_is_ordered, lemma_div_pos_is_pos};
use crate::env::Env;
use crate::error::AuctionError;
use crate::state::{
    amount_or_zero, get_minimum_price, get_slope, get_starting_price, get_starting_time,
    stored_amount, stored_time,
};
use crate::store::{DataKey, StoredValue};

verus! {

/// The price once `elapsed` seconds have passed since the start: the starting
/// price less one unit for each full `decay_rate` seconds, but never less
/// than the floor.
pub open spec fn price_at(starting_price: int, minimum_price: int, decay_rate: int, elapsed: int) -> int {
    let raw_price = starting_price - elapsed / decay_rate;
    if raw_price < minimum_price {
        minimum_price
    } else {
        raw_price
    }
}

/// Whether the price can be told at `now`: the clock has not run backwards
/// past the start of the auction, and the decay rate is positive.
pub open spec fn price_defined(data: Map<DataKey, StoredValue>, now: u64) -> bool {
    &&& stored_time(data, DataKey::Timestamp) matches Some(start) ==> start <= now
    &&& stored_amount(data, DataKey::Slope) matches Some(rate) ==> rate > 0
}

/// The price that the stored configuration gives at `now`, or
/// `Uninitialized` where the start time or the decay rate is absent.
pub open spec fn current_price(data: Map<DataKey, StoredValue>, now: u64) -> Result<
    int,
    AuctionError,
> {
    match (stored_time(data, DataKey::Timestamp), stored_amount(data, DataKey::Slope)) {
        (Some(start), Some(rate)) => Ok(
            price_at(
                amount_or_zero(data, DataKey::Price) as int,
                amount_or_zero(data, DataKey::MinPrice) as int,
                rate as int,
                now - start,
            ),
        ),
        _ => Err(AuctionError::Uninitialized),
    }
}

/// A price, or the reason why there is none, with the price as a
/// mathematical integer.
pub open spec fn quoted(r: Result<i128, AuctionError>) -> Result<int, AuctionError> {
    match r {
        Ok(price) => Ok(price as int),
        Err(err) => Err(err),
    }
}

/// The price once `elapsed` seconds have passed since the start.
pub fn price_after(starting_price: i128, minimum_price: i128, decay_rate: i128, elapsed: u64) -> (r:
    i128)
    requires
        decay_rate > 0,
    ensures
        r == price_at(starting_price as int, minimum_price as int, decay_rate as int, elapsed as int),
        r >= minimum_price,
{
    let decayed: i128 = (elapsed as i128) / decay_rate;
    proof {
        lemma_div_pos_is_pos(elapsed as int, decay_rate as int);
    }
    match starting_price.checked_sub(decayed) {
        Some(raw_price) => {
            if raw_price < minimum_price {
                minimum_price
            } else {
                raw_price
            }
        },
        None => minimum_price,
    }
}

/// Whether the price can be told in `e`.
pub fn can_compute_price(e: &Env) -> (r: bool)
    ensures
        r == price_defined(e.store@, e.timestamp),
{
    let clock_ok = match get_starting_time(e) {
        Ok(start) => start <= e.timestamp,
        Err(_) => true,
    };
    let rate_ok = match get_slope(e) {
        Ok(rate) => rate > 0,
        Err(_) => true,
    };
    clock_ok && rate_ok
}

/// The price at the ledger time of `e`.
///
/// `Uninitialized` exactly where the start time or the decay rate was never
/// stored.
pub fn compute_price(e: &Env) -> (r: Result<i128, AuctionError>)
    requires
        price_defined(e.store@, e.timestamp),
    ensures
        quoted(r) == current_price(e.store@, e.timestamp),
        r matches Ok(price) ==> price >= amount_or_zero(e.store@, DataKey::MinPrice),
{
    let starting_price = get_starting_price(e);
    let minimum_price = get_minimum_price(e);
    let starting_time = match get_starting_time(e) {
        Ok(time) => time,
        Err(err) => {
            return Err(err);
        },
    };
    let current_time = e.timestamp;
    let elapsed_time = current_time - starting_time;
    let rev_slope = match get_slope(e) {
        Ok(slope) => slope,
        Err(err) => {
            return Err(err);
        },
    };
    Ok(price_after(starting_price, minimum_price, rev_slope, elapsed_time))
}

/// The price never rises: later in the auction it is at most what it was
/// earlier.
pub proof fn lemma_price_never_rises(
    starting_price: int,
    minimum_price: int,
    decay_rate: int,
    earlier: int,
    later: int,
)
    requires
        decay_rate > 0,
        0 <= earlier <= later,
    ensures
        price_at(starting_price, minimum_price, decay_rate, later) <= price_at(
            starting_price,
            minimum_price,
            decay_rate,
            earlier,
        ),
{
    lemma_div_is_ordered(earlier, later, decay_rate);
}

/// The price never falls under the floor.
pub proof fn lemma_price_at_least_floor(
    starting_price: int,
    minimum_price: int,
    decay_rate: int,
    elapsed: int,
)
    ensures
        price_at(starting_price, minimum_price, decay_rate, elapsed) >= minimum_price,
{
}

/// At the start the price is the starting price, where that is not under the
/// floor.
pub proof fn lemma_price_starts_at_starting_price(
    starting_price: int,
    minimum_price: int,
    decay_rate: int,
)
    requires
        decay_rate > 0,
        minimum_price <= starting_price,
    ensures
        price_at(starting_price, minimum_price, decay_rate, 0) == starting_price,
{
    assert(0int / decay_rate == 0) by (nonlinear_arith)
        requires
            decay_rate > 0,
    ;
}

/// Of an instance whose price can be told at `earlier`, with the clock at or
/// after the start: at any later time the price can be told too, and is at
/// most the earlier price.
pub proof fn lemma_current_price_never_rises(data: Map<DataKey, StoredValue>, earlier: u64, later: u64)
    requires
        price_defined(data, earlier),
        earlier <= later,
    ensures
        price_defined(data, later),
        current_price(data, earlier) is Ok ==> current_price(data, later) is Ok && current_price(
            data,
            later,
        )->Ok_0 <= current_price(data, earlier)->Ok_0,
        current_price(data, earlier) is Err ==> current_price(data, later) == current_price(
            data,
            earlier,
        ),
{
    match (stored_time(data, DataKey::Timestamp), stored_amount(data, DataKey::Slope)) {
        (Some(start), Some(rate)) => {
            lemma_price_never_rises(
                amount_or_zero(data, DataKey::Price) as int,
                amount_or_zero(data, DataKey::MinPrice) as int,
                rate as int,
                earlier - start,
                later - start,
            );
        },
        _ => {},
    }
}

/// Whenever there is a price, it is at least the stored floor.
pub proof fn lemma_current_price_at_least_floor(data: Map<DataKey, StoredValue>, now: u64)
    ensures
        current_price(data, now) matches Ok(price) ==> price >= amount_or_zero(
            data,
            DataKey::MinPrice,
        ),
{
}

/// At the very time at which the auction started, the price is the stored
/// starting price, where that is not under the floor.
pub proof fn lemma_current_price_at_start(data: Map<DataKey, StoredValue>, start: u64)
    requires
        stored_time(data, DataKey::Timestamp) == Some(start),
        stored_amount(data, DataKey::Slope) matches Some(rate) && rate > 0,
        amount_or_zero(data, DataKey::MinPrice) <= amount_or_zero(data, DataKey::Price),
    ensures
        current_price(data, start) == Ok::<int, AuctionError>(
            amount_or_zero(data, DataKey::Price) as int,
        ),
{
    lemma_price_starts_at_starting_price(
        amount_or_zero(data, DataKey::Price) as int,
        amount_or_zero(data, DataKey::MinPrice) as int,
        stored_amount(data, DataKey::Slope)->Some_0 as int,
    );
}

} // verus!
