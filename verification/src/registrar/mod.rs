//! The registrar, which mints a name to whoever gathers enough verifier signatures.

pub mod msg;
