//! Settlement core of a bridged-token community sale: a fixed-price
//! exchange of a bridge-wrapped quote asset for the chain's native asset,
//! and the withdrawal pipeline of the wrapped asset itself.
//!
//! Everything here works on plain values: the host chain's storage,
//! queries and message encoding stay with the caller, which hands the
//! results of its queries back to the decision functions of this crate.

pub mod conversion;
pub mod text;
pub mod error;
pub mod msg;
pub mod proto;
pub mod response;
pub mod state;
pub mod bridge;
pub mod purchase;
pub mod sale;
pub mod wrapped;
pub mod laws;
