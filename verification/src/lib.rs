//! A hash time-locked escrow engine: it takes assets into custody for a
//! maker, releases them to a taker against the preimage of a committed
//! digest, and refunds the maker once a timelock has passed.
//!
//! [`pallet::Pallet`] is the engine. What it does is specified against the
//! mathematical [`model`]; [`laws`] states what holds of every run.

pub mod config;
pub mod custody;
pub mod hashing;
pub mod invariance;
pub mod laws;
pub mod machine;
pub mod model;
pub mod pallet;
pub mod store;
pub mod types;

pub use config::Config;
pub use hashing::HashAlgorithm;
pub use pallet::{last_event, run_to_block, Pallet};
pub use types::{AssetType, Error, EscrowDetails, EscrowState, Event, Origin};
