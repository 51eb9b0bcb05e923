//! A trust-minimized relay between two independent blockchains.
//!
//! The crate keeps a target chain's view of a source chain's finalized
//! headers up to date and delivers nonce-ordered lane messages from the
//! source chain's outbound lane to the target chain's inbound lane,
//! returning delivery confirmations (with reward-accounting state) back
//! to the source.

pub mod adapter;
pub mod batch;
pub mod bridge;
pub mod calls;
pub mod codec;
pub mod crypto;
pub mod derivation;
pub mod errors;
pub mod fee;
pub mod finality;
pub mod guards;
pub mod lane;
pub mod receipt;
pub mod relayers;
pub mod types;

pub use fee::FeeSchedule;
pub use types::{
    Balance, HeaderId, LaneId, MessageDetails, MessageNonce, RelayError, RelayerMode, Weight,
};
