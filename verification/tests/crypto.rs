use cosmwasm_std::Binary;
use cosmwasm_std::StdError;
use icns::resolver::crypto::adr36_digest;
use icns::resolver::crypto::adr36_message;
use icns::resolver::crypto::adr36_outcome;
use icns::resolver::crypto::adr36_sign_doc;
use icns::resolver::crypto::decimal;
use icns::resolver::error::ContractError;
use sha2::Digest;

#[test]
fn decimal_text_of_numbers() {
    assert_eq!(decimal(0), "0");
    assert_eq!(decimal(7), "7");
    assert_eq!(decimal(10), "10");
    assert_eq!(decimal(1234567890), "1234567890");
    assert_eq!(decimal(u128::MAX), u128::MAX.to_string());
}

#[test]
fn registration_text() {
    let m = adr36_message("alice", "osmo", "osmo1xyz", "osmosis-1", "resolver", 42);
    assert_eq!(
        m,
        "The following is the information for ICNS registration for alice.osmo.\n\nChain id: osmosis-1\nContract Address: resolver\nOwner: osmo1xyz\nSalt: 42"
    );
}

#[test]
fn sign_document() {
    let d = adr36_sign_doc("aGk=", "osmo1xyz");
    assert_eq!(
        d,
        r#"{"account_number":"0","chain_id":"","fee":{"amount":[],"gas":"0"},"memo":"","msgs":[{"type":"sign/MsgSignData","value":{"data":"aGk=","signer":"osmo1xyz"}}],"sequence":"0"}"#
    );
}

#[test]
fn digest_is_the_hash_of_the_sign_document_of_the_text() {
    let m = adr36_message("alice", "osmo", "osmo1xyz", "osmosis-1", "resolver", 42);
    let data = Binary::from(m.as_bytes()).to_base64();
    assert_ne!(data, m);
    let doc = adr36_sign_doc(&data, "osmo1xyz");
    let expected = sha2::Sha256::digest(doc.as_bytes()).to_vec();
    let digest = adr36_digest("alice", "osmo", "osmo1xyz", "osmosis-1", "resolver", 42);
    assert_eq!(digest.len(), 32);
    assert_eq!(digest, expected);
    assert_ne!(digest, adr36_digest("alice", "osmo", "osmo1xyz", "osmosis-1", "resolver", 43));
}

#[test]
fn outcome_of_the_verification() {
    assert_eq!(adr36_outcome(Ok(true)), Ok(()));
    assert_eq!(adr36_outcome(Ok(false)), Err(ContractError::SignatureMisMatch {}));
    assert_eq!(
        adr36_outcome(Err(StdError::generic_err("bad"))),
        Err(ContractError::Std(StdError::generic_err("bad")))
    );
}
