//! The errors of the resolver contract.

use vstd::prelude::*;

verus! {

/// Why the resolver refused a message.
#[derive(Debug, PartialEq)]
pub enum ContractError {
    Std(cosmwasm_std::StdError),
    Unauthorized {},
    HashMethodNotSupported {},
    Bech32DecodingErr { addr: String },
    Bech32PrefixMismatch { prefix: String, addr: String },
    SignatureAlreadyExists {},
    SignatureMisMatch {},
}

} // verus!
