//! Building, preparing and sending contract transactions.
//!
//! The library decides which parameters of a transaction must be queried from
//! the node, assembles the request once the answers are in, signs it where it
//! is signed offline, and chooses the call that sends it. Performing the
//! queries and the sending is left to the caller, which hands the answers back.
pub mod types;
pub mod key;
pub mod chain_id;
pub mod builder;
pub mod prepare;
pub mod execute;
pub mod laws;
pub mod rlp;
pub mod sign;
