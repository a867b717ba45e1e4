use vstd::prelude::*;
use crate::error::{outcome, ClientError};
use std::str::FromStr;

verus! {

/// The number of bytes in a signature.
pub const SIGNATURE_BYTES: usize = 64;

/// `solana_sdk::signature::ParseSignatureError`: why a text is no signature.
#[verifier::external_type_specification]
#[verifier::external_body]
pub struct ExParseSignatureError(solana_sdk::signature::ParseSignatureError);

/// The bytes of the signature that a text stands for, or `None` where the
/// text is not the base58 form of 64 bytes.
pub uninterp spec fn signature_from_text(text: Seq<char>) -> Option<Seq<u8>>;

/// The base58 text of a signature's bytes.
pub uninterp spec fn signature_text(bytes: Seq<u8>) -> Seq<char>;

/// `Signature::from_str` of solana_sdk: it refuses a text of more than 88
/// bytes, decodes base58, and refuses what does not come to 64 bytes. The
/// bytes of the signature are handed on as they are.
#[verifier::external_body]
fn signature_from_str(text: &str) -> (parsed: Result<
    [u8; 64],
    solana_sdk::signature::ParseSignatureError,
>)
    ensures
        match parsed {
            Ok(bytes) => signature_from_text(text@) == Some(bytes@),
            Err(_) => signature_from_text(text@) is None,
        },
{
    match solana_sdk::signature::Signature::from_str(text) {
        Ok(signature) => Ok(signature.into()),
        Err(e) => Err(e),
    }
}

/// `Signature::to_string` of solana_sdk, on the signature made of `bytes`: its
/// base58 text. The second claim is that `Signature::from_str` reads that text
/// back as the same signature: the text of 64 bytes has at most 88
/// characters, all of the alphabet, and decodes to those 64 bytes. The SDK's
/// own tests hold it to that.
#[verifier::external_body]
fn signature_to_string(bytes: &[u8; 64]) -> (text: String)
    ensures
        text@ == signature_text(bytes@),
        signature_from_text(text@) == Some(bytes@),
{
    solana_sdk::signature::Signature::from(*bytes).to_string()
}

/// What reading a text as a signature gives.
pub open spec fn parsed_text(text: Seq<char>) -> Result<Seq<u8>, ClientError> {
    match signature_from_text(text) {
        Some(bytes) => Ok(bytes),
        None => Err(ClientError::SignatureDecode),
    }
}

/// The identifier of a submitted transaction: the 64 bytes of its first
/// signature.
#[derive(Clone, Copy, Debug, PartialEq, Eq, Hash)]
pub struct Signature {
    bytes: [u8; 64],
}

impl View for Signature {
    type V = Seq<u8>;

    closed spec fn view(&self) -> Seq<u8> {
        self.bytes@
    }
}

impl Signature {
    /// The signature with the given bytes.
    pub fn new(bytes: [u8; 64]) -> (signature: Signature)
        ensures
            signature@ == bytes@,
    {
        Signature { bytes }
    }

    /// The bytes of the signature.
    pub fn to_bytes(&self) -> (bytes: [u8; 64])
        ensures
            bytes@ == self@,
    {
        self.bytes
    }

    /// Every signature has 64 bytes.
    pub proof fn lemma_len(self)
        ensures
            self@.len() == SIGNATURE_BYTES,
    {
    }

    /// Signatures with the same bytes are the same signature.
    pub proof fn lemma_same_bytes(self, other: Signature)
        requires
            self@ == other@,
        ensures
            self == other,
    {
        assert(self.bytes =~= other.bytes);
    }

    /// Reads a signature from its base58 text.
    pub fn parse(text: &str) -> (parsed: Result<Signature, ClientError>)
        ensures
            outcome(parsed) == parsed_text(text@),
    {
        match signature_from_str(text) {
            Ok(bytes) => Ok(Signature { bytes }),
            Err(_) => Err(ClientError::SignatureDecode),
        }
    }

    /// Writes the signature as base58 text. Reading that text gives the
    /// signature back.
    pub fn to_base58(&self) -> (text: String)
        ensures
            text@ == signature_text(self@),
            parsed_text(text@) == Ok::<Seq<u8>, ClientError>(self@),
    {
        signature_to_string(&self.bytes)
    }
}

} // verus!
