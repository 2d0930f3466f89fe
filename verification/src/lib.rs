//! A verified core for on-chain programs: payload dispatch and decoding, the
//! account-set lifecycle, derived addresses with conditional initialization,
//! and the construction of nested calls.
pub mod account_info;
pub mod account_init;
pub mod account_set;
pub mod associated_token;
pub mod context;
pub mod cpi;
pub mod data;
pub mod data_types;
pub mod errors;
pub mod instruction;
pub mod prelude;
pub mod program;
pub mod pubkey;
pub mod token;
