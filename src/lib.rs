//! Request handlers that build and sign Solana instructions, verified against
//! byte-level models of the SDK calls they rely on.

pub mod keys;
pub mod message;
pub mod models;
pub mod sdk;
pub mod token;
pub mod transfer;
