//! The ADR-36 proof that the holder of an address agrees to a record: the
//! text it signs, the sign document that wraps the text, and the digest that
//! the host's secp256k1 verification checks the signature against.

use vstd::prelude::*;
use vstd::utf8::encode_utf8;
use cosmwasm_std::StdError;
use crate::outside::base64_encoding;
use crate::outside::sha256;
use crate::outside::sha256_digest;
use crate::outside::to_base64;
use crate::resolver::error::ContractError;

verus! {

/// The decimal digit of a number below ten.
pub open spec fn digit_char(d: nat) -> char {
    if d == 0 {
        '0'
    } else if d == 1 {
        '1'
    } else if d == 2 {
        '2'
    } else if d == 3 {
        '3'
    } else if d == 4 {
        '4'
    } else if d == 5 {
        '5'
    } else if d == 6 {
        '6'
    } else if d == 7 {
        '7'
    } else if d == 8 {
        '8'
    } else {
        '9'
    }
}

/// The decimal text of a number, without leading zeros.
pub open spec fn decimal_text(n: nat) -> Seq<char>
    decreases n,
{
    if n < 10 {
        seq![digit_char(n)]
    } else {
        decimal_text(n / 10).push(digit_char(n % 10))
    }
}

/// The text of one decimal digit.
fn digit_str(d: u128) -> (res: &'static str)
    requires
        d < 10,
    ensures
        res@ == seq![digit_char(d as nat)],
{
    proof {
        reveal_strlit("0");
        reveal_strlit("1");
        reveal_strlit("2");
        reveal_strlit("3");
        reveal_strlit("4");
        reveal_strlit("5");
        reveal_strlit("6");
        reveal_strlit("7");
        reveal_strlit("8");
        reveal_strlit("9");
    }
    if d == 0 {
        "0"
    } else if d == 1 {
        "1"
    } else if d == 2 {
        "2"
    } else if d == 3 {
        "3"
    } else if d == 4 {
        "4"
    } else if d == 5 {
        "5"
    } else if d == 6 {
        "6"
    } else if d == 7 {
        "7"
    } else if d == 8 {
        "8"
    } else {
        "9"
    }
}

/// The decimal text of a number.
pub fn decimal(n: u128) -> (res: String)
    ensures
        res@ == decimal_text(n as nat),
    decreases n,
{
    if n < 10 {
        digit_str(n).to_owned()
    } else {
        let mut s = decimal(n / 10);
        s.append(digit_str(n % 10));
        s
    }
}

/// The text that the holder of `bech32_address` signs to agree that the name
/// `user_name` has that address on the chain of `bech32_prefix`, for the
/// resolver at `contract_address` on the chain `chain_id`, with a salt that
/// makes each signature new.
pub open spec fn adr36_message_text(
    user_name: Seq<char>,
    bech32_prefix: Seq<char>,
    bech32_address: Seq<char>,
    chain_id: Seq<char>,
    contract_address: Seq<char>,
    salt: u128,
) -> Seq<char> {
    "The following is the information for ICNS registration for "@ + user_name + "."@ + bech32_prefix
        + ".\n\nChain id: "@ + chain_id + "\nContract Address: "@ + contract_address + "\nOwner: "@
        + bech32_address + "\nSalt: "@ + decimal_text(salt as nat)
}

/// The ADR-36 sign document of arbitrary data, given as Base64, signed by `signer`.
pub open spec fn adr36_sign_doc_text(data_base64: Seq<char>, signer: Seq<char>) -> Seq<char> {
    "{\"account_number\":\"0\",\"chain_id\":\"\",\"fee\":{\"amount\":[],\"gas\":\"0\"},\"memo\":\"\",\"msgs\":[{\"type\":\"sign/MsgSignData\",\"value\":{\"data\":\""@
        + data_base64 + "\",\"signer\":\""@ + signer + "\"}}],\"sequence\":\"0\"}"@
}

/// The digest whose signature by the holder of `bech32_address` proves its
/// agreement to the record: the SHA-256 digest of the sign document of the
/// registration text.
pub open spec fn adr36_digest_of(
    user_name: Seq<char>,
    bech32_prefix: Seq<char>,
    bech32_address: Seq<char>,
    chain_id: Seq<char>,
    contract_address: Seq<char>,
    salt: u128,
) -> Seq<u8> {
    sha256_digest(
        encode_utf8(
            adr36_sign_doc_text(
                base64_encoding(
                    encode_utf8(
                        adr36_message_text(
                            user_name,
                            bech32_prefix,
                            bech32_address,
                            chain_id,
                            contract_address,
                            salt,
                        ),
                    ),
                ),
                bech32_address,
            ),
        ),
    )
}

/// The registration text.
pub fn adr36_message(
    user_name: &str,
    bech32_prefix: &str,
    bech32_address: &str,
    chain_id: &str,
    contract_address: &str,
    signature_salt: u128,
) -> (res: String)
    ensures
        res@ == adr36_message_text(
            user_name@,
            bech32_prefix@,
            bech32_address@,
            chain_id@,
            contract_address@,
            signature_salt,
        ),
{
    let mut s = "The following is the information for ICNS registration for ".to_owned();
    s.append(user_name);
    s.append(".");
    s.append(bech32_prefix);
    s.append(".\n\nChain id: ");
    s.append(chain_id);
    s.append("\nContract Address: ");
    s.append(contract_address);
    s.append("\nOwner: ");
    s.append(bech32_address);
    s.append("\nSalt: ");
    let salt = decimal(signature_salt);
    s.append(salt.as_str());
    s
}

/// The sign document of data given as Base64.
pub fn adr36_sign_doc(data_base64: &str, signer: &str) -> (res: String)
    ensures
        res@ == adr36_sign_doc_text(data_base64@, signer@),
{
    let mut s = "{\"account_number\":\"0\",\"chain_id\":\"\",\"fee\":{\"amount\":[],\"gas\":\"0\"},\"memo\":\"\",\"msgs\":[{\"type\":\"sign/MsgSignData\",\"value\":{\"data\":\"".to_owned();
    s.append(data_base64);
    s.append("\",\"signer\":\"");
    s.append(signer);
    s.append("\"}}],\"sequence\":\"0\"}");
    s
}

/// The digest that the holder of `bech32_address` signs to agree to the record.
pub fn adr36_digest(
    user_name: &str,
    bech32_prefix: &str,
    bech32_address: &str,
    chain_id: &str,
    contract_address: &str,
    signature_salt: u128,
) -> (res: Vec<u8>)
    ensures
        res@ == adr36_digest_of(
            user_name@,
            bech32_prefix@,
            bech32_address@,
            chain_id@,
            contract_address@,
            signature_salt,
        ),
{
    let message = adr36_message(
        user_name,
        bech32_prefix,
        bech32_address,
        chain_id,
        contract_address,
        signature_salt,
    );
    let data = to_base64(message.as_str().as_bytes());
    let doc = adr36_sign_doc(data.as_str(), bech32_address);
    sha256(doc.as_str().as_bytes())
}

/// What the host answered to the secp256k1 verification of a signature by a
/// public key over a digest.
pub struct SignatureCheck {
    /// The digest that the signature was checked against.
    pub digest: Vec<u8>,
    /// The signature that was checked.
    pub signature: Vec<u8>,
    /// The public key that it was checked with.
    pub pub_key: Vec<u8>,
    /// The host's answer: whether the signature is valid, or why it could not tell.
    pub verified: Result<bool, StdError>,
}

/// Why a record is refused for its signature check, where the record's
/// `signature` by `pub_key` must be over `expected`; `None` where the check
/// passed. A check of another signature, key or digest proves nothing and
/// counts as a mismatch.
pub open spec fn signature_refusal(
    check: SignatureCheck,
    expected: Seq<u8>,
    signature: Seq<u8>,
    pub_key: Seq<u8>,
) -> Option<ContractError> {
    if check.digest@ != expected || check.signature@ != signature || check.pub_key@ != pub_key {
        Some(ContractError::SignatureMisMatch {})
    } else {
        match check.verified {
            Err(e) => Some(ContractError::Std(e)),
            Ok(false) => Some(ContractError::SignatureMisMatch {}),
            Ok(true) => None,
        }
    }
}

/// The outcome of the host's verification of a signature.
pub fn adr36_outcome(verified: Result<bool, StdError>) -> (res: Result<(), ContractError>)
    ensures
        match verified {
            Ok(true) => res is Ok,
            Ok(false) => res == Err::<(), ContractError>(ContractError::SignatureMisMatch {}),
            Err(e) => res == Err::<(), ContractError>(ContractError::Std(e)),
        },
{
    match verified {
        Ok(true) => Ok(()),
        Ok(false) => Err(ContractError::SignatureMisMatch {}),
        Err(e) => Err(ContractError::Std(e)),
    }
}

} // verus!
