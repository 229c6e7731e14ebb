//! The messages and responses of the resolver contract.

use vstd::prelude::*;

verus! {

/// The message that instantiates the resolver.
#[derive(Clone, Debug, PartialEq)]
pub struct InstantiateMsg {
    pub name_address: String,
}

/// The hash by which an address is derived from a public key.
#[derive(Clone, Copy, Debug, PartialEq, Eq, Structural)]
pub enum AddressHash {
    SHA256,
    Keccak256,
}

/// The ADR-36 proof that the holder of an address agrees to a record.
#[derive(Clone, Debug, PartialEq)]
pub struct Adr36Info {
    pub bech32_address: String,
    pub address_hash: AddressHash,
    pub pub_key: Vec<u8>,
    pub signature: Vec<u8>,
}

/// The messages that change the resolver's state.
#[derive(Clone, Debug, PartialEq)]
pub enum ExecuteMsg {
    SetRecord {
        user_name: String,
        bech32_prefix: String,
        adr36_info: Adr36Info,
        signature_salt: u128,
    },
    SetPrimary {
        name: String,
    },
}

/// The queries that the resolver answers.
#[derive(Clone, Debug, PartialEq)]
pub enum QueryMsg {
    Config {},
    GetAddresses { user_name: String },
    GetAddress { user_name: String, bech32_prefix: String },
    Admin {},
    PrimaryName { address: String },
}

/// The address of one name on the chain of one prefix.
#[derive(Clone, Debug, PartialEq)]
pub struct GetAddressResponse {
    pub address: String,
}

/// The (prefix, address) pairs of one name.
#[derive(Clone, Debug, PartialEq)]
pub struct GetAddressesResponse {
    pub addresses: Vec<(String, String)>,
}

/// The primary name of an address.
#[derive(Clone, Debug, PartialEq)]
pub struct PrimaryNameResponse {
    pub name: String,
}

/// The admins of the name ownership contract.
#[derive(Clone, Debug, PartialEq)]
pub struct AdminResponse {
    pub admins: Vec<String>,
}

} // verus!
