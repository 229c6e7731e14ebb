//! The resolver contract: it maps a name and a Bech32 prefix to an address.

pub mod contract;
pub mod crypto;
pub mod error;
pub mod laws;
pub mod msg;
pub mod state;
