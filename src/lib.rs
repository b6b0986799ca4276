//! Snapshot voter: voting weight in a governance realm, granted from membership in a
//! snapshot committed as a Merkle root.
pub mod bytes;
pub mod claim;
pub mod error;
pub mod hash;
pub mod merkle;
pub mod registrar;
pub mod state;
pub mod voter_weight;
