//! Proof of inclusion for preconfirmed transactions.
//!
//! An underwriter promises that transactions will be in the block of a slot. This
//! library verifies, from block headers, account proofs and inclusion proofs, whether
//! the promise was kept, and encodes what a zero-knowledge proof of that verification
//! commits to.

pub mod accounts;
pub mod bytes;
pub mod ethereum;
pub mod fees;
pub mod headers;
pub mod inclusion;
pub mod laws;
pub mod outcome_laws;
pub mod public_values;
pub mod signing;
pub mod slot;
pub mod sponsorship;
pub mod step_laws;
pub mod transactions;
pub mod trie;
pub mod trie_laws;
pub mod types;
pub mod verification;

pub use public_values::{create_public_values, verify_and_commit};
pub use slot::get_slot_from_timestamp;
pub use verification::run_poi_verification;
