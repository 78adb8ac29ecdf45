//! Typed access to the state store: one reader and one writer for each part
//! of the configuration.
//!
//! A price or a nonce that was never set reads as zero. The other parts have
//! no meaningful default: where one is absent the instance was never
//! initialized, and the reader says so.

use vstd::prelude::*;
use crate::env::Env;
use crate::error::AuctionError;
use crate::identity::Identifier;
use crate::store::{DataKey, StoredValue};

verus! {

/// The amount stored under `key`, if one is.
pub open spec fn stored_amount(data: Map<DataKey, StoredValue>, key: DataKey) -> Option<i128> {
    if data.contains_key(key) {
        match data[key] {
            StoredValue::Amount(amount) => Some(amount),
            _ => None,
        }
    } else {
        None
    }
}

/// The time stored under `key`, if one is.
pub open spec fn stored_time(data: Map<DataKey, StoredValue>, key: DataKey) -> Option<u64> {
    if data.contains_key(key) {
        match data[key] {
            StoredValue::Time(time) => Some(time),
            _ => None,
        }
    } else {
        None
    }
}

/// The asset handle stored under `key`, if one is.
pub open spec fn stored_asset(data: Map<DataKey, StoredValue>, key: DataKey) -> Option<[u8; 32]> {
    if data.contains_key(key) {
        match data[key] {
            StoredValue::Asset(asset) => Some(asset),
            _ => None,
        }
    } else {
        None
    }
}

/// The identity stored under `key`, if one is.
pub open spec fn stored_identity(data: Map<DataKey, StoredValue>, key: DataKey) -> Option<
    Identifier,
> {
    if data.contains_key(key) {
        match data[key] {
            StoredValue::Identity(id) => Some(id),
            _ => None,
        }
    } else {
        None
    }
}

/// The stored amount, or zero where none is stored.
pub open spec fn amount_or_zero(data: Map<DataKey, StoredValue>, key: DataKey) -> i128 {
    match stored_amount(data, key) {
        Some(amount) => amount,
        None => 0,
    }
}

/// `e` with `value` set under `key` and nothing else changed.
pub open spec fn stored(e: Env, after: Env, key: DataKey, value: StoredValue) -> bool {
    &&& after.store@ == e.store@.insert(key, value)
    &&& after.timestamp == e.timestamp
    &&& after.contract_id == e.contract_id
}

fn read_amount(e: &Env, key: DataKey) -> (r: Option<i128>)
    ensures
        r == stored_amount(e.store@, key),
{
    match e.store.get(&key) {
        Some(StoredValue::Amount(amount)) => Some(amount),
        _ => None,
    }
}

fn read_asset(e: &Env, key: DataKey) -> (r: Result<[u8; 32], AuctionError>)
    ensures
        r == match stored_asset(e.store@, key) {
            Some(asset) => Ok::<[u8; 32], AuctionError>(asset),
            None => Err(AuctionError::Uninitialized),
        },
{
    match e.store.get(&key) {
        Some(StoredValue::Asset(asset)) => Ok(asset),
        _ => Err(AuctionError::Uninitialized),
    }
}

/// The identity of the contract instance itself.
pub fn get_contract_id(e: &Env) -> (r: Identifier)
    ensures
        r == Identifier::Contract(e.contract_id),
{
    Identifier::Contract(e.contract_id)
}

/// Stores the floor under which the price never falls.
pub fn put_minimum_price(e: &mut Env, price: i128)
    ensures
        stored(*old(e), *final(e), DataKey::MinPrice, StoredValue::Amount(price)),
{
    e.store.set(DataKey::MinPrice, StoredValue::Amount(price));
}

/// The floor under which the price never falls; zero where none was stored.
pub fn get_minimum_price(e: &Env) -> (r: i128)
    ensures
        r == amount_or_zero(e.store@, DataKey::MinPrice),
{
    match read_amount(e, DataKey::MinPrice) {
        Some(amount) => amount,
        None => 0,
    }
}

/// Stores the price at which the auction starts.
pub fn put_starting_price(e: &mut Env, price: i128)
    ensures
        stored(*old(e), *final(e), DataKey::Price, StoredValue::Amount(price)),
{
    e.store.set(DataKey::Price, StoredValue::Amount(price));
}

/// The price at which the auction starts; zero where none was stored.
pub fn get_starting_price(e: &Env) -> (r: i128)
    ensures
        r == amount_or_zero(e.store@, DataKey::Price),
{
    match read_amount(e, DataKey::Price) {
        Some(amount) => amount,
        None => 0,
    }
}

/// Stores the decay rate: the seconds that must pass for the price to fall
/// by one unit.
pub fn put_slope(e: &mut Env, slope: i128)
    ensures
        stored(*old(e), *final(e), DataKey::Slope, StoredValue::Amount(slope)),
{
    e.store.set(DataKey::Slope, StoredValue::Amount(slope));
}

/// The decay rate. It has no default: `Uninitialized` exactly where none
/// was stored.
pub fn get_slope(e: &Env) -> (r: Result<i128, AuctionError>)
    ensures
        r == match stored_amount(e.store@, DataKey::Slope) {
            Some(slope) => Ok::<i128, AuctionError>(slope),
            None => Err(AuctionError::Uninitialized),
        },
{
    match read_amount(e, DataKey::Slope) {
        Some(slope) => Ok(slope),
        None => Err(AuctionError::Uninitialized),
    }
}

/// Stores the ledger time at which the auction started.
pub fn put_starting_time(e: &mut Env, time: u64)
    ensures
        stored(*old(e), *final(e), DataKey::Timestamp, StoredValue::Time(time)),
{
    e.store.set(DataKey::Timestamp, StoredValue::Time(time));
}

/// The ledger time at which the auction started. It has no default:
/// `Uninitialized` exactly where none was stored.
pub fn get_starting_time(e: &Env) -> (r: Result<u64, AuctionError>)
    ensures
        r == match stored_time(e.store@, DataKey::Timestamp) {
            Some(time) => Ok::<u64, AuctionError>(time),
            None => Err(AuctionError::Uninitialized),
        },
{
    match e.store.get(&DataKey::Timestamp) {
        Some(StoredValue::Time(time)) => Ok(time),
        _ => Err(AuctionError::Uninitialized),
    }
}

/// Stores the handle of the asset in which the price is paid.
pub fn put_token_id(e: &mut Env, token_id: [u8; 32])
    ensures
        stored(*old(e), *final(e), DataKey::TokenId, StoredValue::Asset(token_id)),
{
    e.store.set(DataKey::TokenId, StoredValue::Asset(token_id));
}

/// The handle of the asset in which the price is paid. It has no default:
/// `Uninitialized` exactly where none was stored.
pub fn get_token_id(e: &Env) -> (r: Result<[u8; 32], AuctionError>)
    ensures
        r == match stored_asset(e.store@, DataKey::TokenId) {
            Some(asset) => Ok::<[u8; 32], AuctionError>(asset),
            None => Err(AuctionError::Uninitialized),
        },
{
    read_asset(e, DataKey::TokenId)
}

/// Stores the handle of the asset that is sold.
pub fn put_item_id(e: &mut Env, token_id: [u8; 32])
    ensures
        stored(*old(e), *final(e), DataKey::ItemId, StoredValue::Asset(token_id)),
{
    e.store.set(DataKey::ItemId, StoredValue::Asset(token_id));
}

/// The handle of the asset that is sold. It has no default: `Uninitialized`
/// exactly where none was stored.
pub fn get_item_id(e: &Env) -> (r: Result<[u8; 32], AuctionError>)
    ensures
        r == match stored_asset(e.store@, DataKey::ItemId) {
            Some(asset) => Ok::<[u8; 32], AuctionError>(asset),
            None => Err(AuctionError::Uninitialized),
        },
{
    read_asset(e, DataKey::ItemId)
}

/// Whether an administrator was stored: the mark of an initialized
/// instance.
pub fn has_administrator(e: &Env) -> (r: bool)
    ensures
        r == e.store@.contains_key(DataKey::Admin),
{
    e.store.has(&DataKey::Admin)
}

/// The administrator. `Uninitialized` exactly where none was stored.
pub fn read_administrator(e: &Env) -> (r: Result<Identifier, AuctionError>)
    ensures
        r == match stored_identity(e.store@, DataKey::Admin) {
            Some(id) => Ok::<Identifier, AuctionError>(id),
            None => Err(AuctionError::Uninitialized),
        },
{
    match e.store.get(&DataKey::Admin) {
        Some(StoredValue::Identity(id)) => Ok(id),
        _ => Err(AuctionError::Uninitialized),
    }
}

/// Stores the administrator.
pub fn write_administrator(e: &mut Env, id: Identifier)
    ensures
        stored(*old(e), *final(e), DataKey::Admin, StoredValue::Identity(id)),
{
    e.store.set(DataKey::Admin, StoredValue::Identity(id));
}

/// The nonce of `id`; zero where none was stored.
pub fn read_nonce(e: &Env, id: &Identifier) -> (r: i128)
    ensures
        r == amount_or_zero(e.store@, DataKey::Nonce(*id)),
{
    match read_amount(e, DataKey::Nonce(*id)) {
        Some(nonce) => nonce,
        None => 0,
    }
}

} // verus!
