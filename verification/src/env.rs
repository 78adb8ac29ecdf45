//! What a call on the contract sees of the ledger that hosts it.

use vstd::prelude::*;
use crate::store::{DataKey, Store, StoredValue};

verus! {

/// The environment of one call: the instance's state store, the ledger time
/// at which the call runs, and the id under which the instance is known.
#[derive(Debug)]
pub struct Env {
    /// The state store of the instance.
    pub store: Store,
    /// The ledger time, in seconds.
    pub timestamp: u64,
    /// The id of the contract instance itself.
    pub contract_id: [u8; 32],
}

impl Env {
    /// The environment of a fresh instance: nothing is stored yet.
    pub fn new(contract_id: [u8; 32], timestamp: u64) -> (r: Env)
        ensures
            r.store@ == Map::<DataKey, StoredValue>::empty(),
            r.timestamp == timestamp,
            r.contract_id == contract_id,
    {
        Env { store: Store::new(), timestamp, contract_id }
    }
}

impl Clone for Env {
    fn clone(&self) -> (r: Env)
        ensures
            r.store@ == self.store@,
            r.timestamp == self.timestamp,
            r.contract_id == self.contract_id,
    {
        Env { store: self.store.clone(), timestamp: self.timestamp, contract_id: self.contract_id }
    }
}

} // verus!
