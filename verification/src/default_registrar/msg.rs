//! The messages of the first registrar.

use vstd::prelude::*;
use cosmwasm_std::Decimal;

verus! {

/// The message that instantiates the registrar.
#[derive(Debug, PartialEq)]
pub struct InstantiateMsg {
    pub name_nft_addr: String,
    pub verifier_pubkeys: Vec<String>,
    pub verification_threshold: Decimal,
}

/// The messages that the registrar carries out.
#[derive(Debug, PartialEq)]
pub enum ExecuteMsg {
    Claim {
        name: String,
        verifying_msg: String,
        /// Each `base64(secp256k1_sign(verifying_msg, verifier_key))`.
        verifications: Vec<Verification>,
    },
    AddVerifier { verifier_addr: String },
    RemoveVerifier { verifier_addr: String },
    SetVerificationThreshold { threshold: Decimal },
}

/// The registrar's query message.
#[derive(Clone, Debug, PartialEq)]
pub struct QueryMsg;

/// A signature and the public key that made it.
#[derive(Clone, Debug, PartialEq)]
pub struct Verification {
    pub public_key: String,
    pub signature: String,
}

/// What the verifiers sign for a claim.
#[derive(Clone, Debug, PartialEq)]
pub struct VerifyingMsg {
    pub name: String,
    pub claimer: String,
    pub contract_address: String,
    pub chain_id: String,
}

} // verus!
