//! The messages, responses, configuration and errors of the name ownership contract.

use vstd::prelude::*;

verus! {

/// The message that instantiates the name ownership contract.
#[derive(Clone, Debug, PartialEq)]
pub struct InstantiateMsg {
    pub name: String,
    pub symbol: String,
    pub minter: String,
    pub admin: String,
    pub transferable: bool,
}

/// The message that instantiates the underlying non-fungible token contract.
#[derive(Clone, Debug, PartialEq)]
pub struct Cw721BaseInstantiateMsg {
    pub name: String,
    pub symbol: String,
    pub minter: String,
}

/// The messages of the contract's own: they change its configuration.
#[derive(Clone, Debug, PartialEq)]
pub enum ICNSNameExecuteMsg {
    SetAdmin { admin: String },
    SetTransferrable { transferrable: bool },
}

/// The messages of the contract: those of the underlying token contract, of
/// type `B`, and the contract's own.
#[derive(Clone, Debug, PartialEq)]
pub enum ExecuteMsg<B> {
    CW721Base(B),
    ICNSName(ICNSNameExecuteMsg),
}

/// The queries of the contract: its own and those of the underlying token
/// contract, of type `Q`.
#[derive(Clone, Debug, PartialEq)]
pub enum QueryMsg<Q> {
    Admin {},
    Transferrable {},
    CW721Base(Q),
}

/// The admins of the contract.
#[derive(Clone, Debug, PartialEq)]
pub struct AdminResponse {
    pub admins: Vec<String>,
}

/// Whether names may be transferred by their owners.
#[derive(Clone, Debug, PartialEq)]
pub struct TransferrableResponse {
    pub transferrable: bool,
}

/// The stored configuration of the contract.
#[derive(Clone, Debug, PartialEq)]
pub struct Config {
    pub admin: String,
    pub transferable: bool,
}

/// Why the contract refused a message.
#[derive(Debug, PartialEq)]
pub enum ContractError {
    Std(cosmwasm_std::StdError),
    Unauthorized {},
}

} // verus!
