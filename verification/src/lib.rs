//! A time-leased ownership and authorization engine for uniquely identified
//! tokens. Each token may carry an optional expiration; while unexpired,
//! ordinary ownership and delegation rules apply, and once expired the token
//! reverts to administrator control. The crate also computes per-sale royalty
//! fees from a configured percentage.

pub mod error;
pub mod expiration;
pub mod state;
pub mod msg;
pub mod authorize;
pub mod execute;
pub mod query;
