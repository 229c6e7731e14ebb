//! The messages and responses of the registrar.

use vstd::prelude::*;
use cosmwasm_std::Binary;
use cosmwasm_std::Decimal;

verus! {

/// The message that instantiates the registrar.
#[derive(Debug, PartialEq)]
pub struct InstantiateMsg {
    pub name_nft_addr: String,
    pub verifier_pubkeys: Vec<Binary>,
    pub verification_threshold: Decimal,
}

/// The messages that the registrar carries out.
#[derive(Debug, PartialEq)]
pub enum ExecuteMsg {
    /// To claim a name, the sender gathers signatures of `verifying_msg` from
    /// the verifiers; their number must pass the verification threshold for
    /// the name to be minted to the sender.
    Claim {
        /// The name to be minted.
        name: String,
        /// The text of the [`VerifyingMsg`] that the verifiers signed.
        verifying_msg: String,
        /// Each signature with the public key that made it.
        verifications: Vec<Verification>,
        /// The name of the referer, kept for future incentives.
        referral: Option<String>,
    },
    UpdateVerifierPubkeys { add: Vec<Binary>, remove: Vec<Binary> },
    SetVerificationThreshold { threshold: Decimal },
    SetNameNFTAddress { name_nft_address: String },
}

/// The queries that the registrar answers.
#[derive(Clone, Debug, PartialEq)]
pub enum QueryMsg {
    VerifierPubKeys {},
    VerificationThreshold {},
    NameNFTAddress {},
    GetReferralCount { user_name: String },
}

/// The verifiers' public keys.
#[derive(Debug, PartialEq)]
pub struct VerifierPubKeysResponse {
    pub verifier_pubkeys: Vec<Binary>,
}

/// The share of verifiers whose signatures a claim needs.
#[derive(Debug, PartialEq)]
pub struct VerificationThresholdResponse {
    pub verification_threshold_percentage: Decimal,
}

/// The address of the name ownership contract.
#[derive(Clone, Debug, PartialEq)]
pub struct NameNFTAddressResponse {
    pub name_nft_address: String,
}

/// The answer to a referral count query.
#[derive(Clone, Debug, PartialEq)]
pub struct GetReferralCountResponse {
    pub admins: Vec<String>,
}

/// A signature and the public key that made it.
#[derive(Debug, PartialEq)]
pub struct Verification {
    pub public_key: Binary,
    pub signature: Binary,
}

/// What the verifiers sign for a claim.
#[derive(Clone, Debug, PartialEq)]
pub struct VerifyingMsg {
    pub name: String,
    pub claimer: String,
    pub contract_address: String,
    pub chain_id: String,
}

} // verus!
