//! A single-lot Dutch auction: one prize asset is sold for a price, paid in a
//! second asset, that falls in steps from a starting price to a floor.
//!
//! The crate holds the auction's rules as verified code over plain values:
//! the state store, the configuration written once at initialization, the
//! price oracle, and the settlement engine that drives the two transfers of a
//! purchase. The ledger that hosts the contract and the token service that
//! keeps the balances stand outside; the settlement engine names the calls it
//! wants made and is told what came of them.

pub mod contract;
pub mod env;
pub mod error;
pub mod identity;
pub mod price;
pub mod settlement;
pub mod state;
pub mod store;
pub mod token;

pub use env::Env;
pub use contract::{AuctionContract, AuctionContractTrait};
pub use error::AuctionError;
pub use identity::{same_bytes, AccountSignatures, Auth, Ed25519Signature, Identifier, Signature};
pub use store::{DataKey, Store, StoredValue};
pub use settlement::{Settlement, Step};
pub use token::{TokenCall, TokenReply, Tokens};
