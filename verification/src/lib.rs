//! Client-side core of a central limit order book (CLOB) trading client:
//! order construction with deterministic fixed-point amount scaling, a
//! canonical typed-data digest, ECDSA signing through a wallet key, an
//! authentication state machine gating all trading calls, and the mapping
//! from transport responses to typed outcomes.

pub mod amounts;
pub mod auth;
pub mod client;
pub mod crypto;
pub mod digest;
pub mod errors;
pub mod gamma;
pub mod order;
pub mod signer;
