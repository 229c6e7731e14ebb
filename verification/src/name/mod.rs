//! The name ownership contract: a non-fungible token per name, with an admin
//! who decides whether names may be transferred.

pub mod contract;
pub mod laws;
pub mod msg;
