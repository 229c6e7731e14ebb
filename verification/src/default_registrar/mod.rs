//! The first registrar, whose verifiers are named by their key strings.

pub mod msg;
