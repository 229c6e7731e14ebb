//! The outside items that the library holds or calls, with the contracts that
//! the library believes of them.

use vstd::prelude::*;

verus! {

/// A standard error of the contract host library, carried through unchanged.
#[verifier::external_type_specification]
#[verifier::external_body]
pub struct ExStdError(cosmwasm_std::StdError);

/// A fixed-point decimal of the contract host library, carried through unchanged.
#[verifier::external_type_specification]
#[verifier::external_body]
pub struct ExDecimal(cosmwasm_std::Decimal);

/// A binary blob of the contract host library, carried through unchanged.
#[verifier::external_type_specification]
#[verifier::external_body]
pub struct ExBinary(cosmwasm_std::Binary);

/// The error of the Bech32 decoder.
#[verifier::external_type_specification]
#[verifier::external_body]
pub struct ExEncodingError(subtle_encoding::Error);

/// What the lower-case Bech32 decoder gives back for an encoded string: the
/// human readable part and the data, or `None` where it refuses the string.
pub uninterp spec fn bech32_decoding(encoded: Seq<char>) -> Option<(Seq<char>, Seq<u8>)>;

/// A character that may stand in a decoded human readable part: printable
/// ASCII without the upper-case letters.
pub open spec fn is_hrp_char(c: char) -> bool {
    ('!' <= c && c <= '~') && !('A' <= c && c <= 'Z')
}

/// Calls `subtle_encoding::bech32::decode`. Its result is named
/// `bech32_decoding` of the input's characters; beside that the contract states
/// what the decoder's source checks of every human readable part it gives
/// back: it is not empty and holds only printable ASCII, lowered. What the
/// checksum and the data are is left to the name.
#[verifier::external_body]
pub fn bech32_decode(encoded: &String) -> (res: Result<(String, Vec<u8>), subtle_encoding::Error>)
    ensures
        res is Ok <==> bech32_decoding(encoded@) is Some,
        res matches Ok((hrp, data)) ==> (hrp@, data@) == bech32_decoding(encoded@)->0,
        res matches Ok((hrp, data)) ==> hrp@.len() > 0 && forall|i: int|
            0 <= i < hrp@.len() ==> is_hrp_char(#[trigger] hrp@[i]),
{
    subtle_encoding::bech32::decode(encoded)
}

/// The SHA-256 digest of a byte string.
pub uninterp spec fn sha256_digest(data: Seq<u8>) -> Seq<u8>;

/// Calls `sha2::Sha256::digest`. Its result is named `sha256_digest` of the
/// input's bytes, and it is 32 bytes long; what the digest is is left to the
/// name.
#[verifier::external_body]
pub fn sha256(data: &[u8]) -> (res: Vec<u8>)
    ensures
        res@ == sha256_digest(data@),
        res@.len() == 32,
{
    <sha2::Sha256 as sha2::Digest>::digest(data).to_vec()
}

/// The standard, padded Base64 text of a byte string.
pub uninterp spec fn base64_encoding(data: Seq<u8>) -> Seq<char>;

/// Calls `cosmwasm_std::Binary::to_base64` on the bytes. Its result is named
/// `base64_encoding` of the input's bytes; what the encoding is is left to the
/// name.
#[verifier::external_body]
pub fn to_base64(data: &[u8]) -> (res: String)
    ensures
        res@ == base64_encoding(data@),
{
    cosmwasm_std::Binary::from(data).to_base64()
}

} // verus!
