use vstd::prelude::*;

verus! {

/// How the bytes of a transaction are written as text on the wire.
#[derive(Clone, Copy, Debug, PartialEq, Eq, Structural)]
pub enum Encoding {
    Base58,
    Base64,
}

impl Encoding {
    /// The name by which the node knows the encoding.
    pub open spec fn name(self) -> Seq<char> {
        match self {
            Encoding::Base58 => "base58"@,
            Encoding::Base64 => "base64"@,
        }
    }

    /// The encoding's name, as it is written into the options.
    pub fn as_str(&self) -> (name: &'static str)
        ensures
            name@ == self.name(),
    {
        match self {
            Encoding::Base58 => "base58",
            Encoding::Base64 => "base64",
        }
    }
}

/// The base58 text (Bitcoin alphabet, no checksum) of a byte string.
pub uninterp spec fn base58_text(bytes: Seq<u8>) -> Seq<char>;

/// The base64 text (standard alphabet, padded) of a byte string.
pub uninterp spec fn base64_text(bytes: Seq<u8>) -> Seq<char>;

/// The text of `bytes` under `encoding`.
pub open spec fn encoded_text(bytes: Seq<u8>, encoding: Encoding) -> Seq<char> {
    match encoding {
        Encoding::Base58 => base58_text(bytes),
        Encoding::Base64 => base64_text(bytes),
    }
}

/// Whether a byte string of this length can be put into text on this machine.
/// The encoders allocate room for the text before they write it, up to
/// `(len / 5 + 1) * 8` bytes, and no allocation is larger than `isize::MAX`.
pub open spec fn encodable(len: nat) -> bool {
    (len / 5 + 1) * 8 <= isize::MAX
}

/// `bs58::encode(..).into_string()`: the input in base58, default alphabet,
/// no checksum. The encoder first allocates `(len / 5 + 1) * 8` bytes, which
/// the precondition keeps within what can be allocated.
#[verifier::external_body]
fn bs58_encode(bytes: &[u8]) -> (text: String)
    requires
        (bytes@.len() / 5 + 1) * 8 <= isize::MAX,
    ensures
        text@ == base58_text(bytes@),
{
    bs58::encode(bytes).into_string()
}

/// `Engine::encode` of base64's `STANDARD` engine: the input in base64,
/// standard alphabet, with padding. The engine works out the encoded length,
/// four bytes for every three of the input, and allocates it; it panics where
/// the length does not fit `usize` or cannot be allocated, which the
/// precondition rules out.
#[verifier::external_body]
fn base64_encode(bytes: &[u8]) -> (text: String)
    requires
        bytes@.len() / 3 * 4 + 4 <= isize::MAX,
    ensures
        text@ == base64_text(bytes@),
{
    base64::Engine::encode(&base64::engine::general_purpose::STANDARD, bytes)
}

/// Tells whether `bytes` is short enough to be put into text.
pub fn can_encode(bytes: &[u8]) -> (yes: bool)
    ensures
        yes == encodable(bytes@.len()),
{
    bytes.len() / 5 < (isize::MAX as usize) / 8
}

/// Writes `bytes` as text in the given encoding.
pub fn encode_bytes(bytes: &[u8], encoding: Encoding) -> (text: String)
    requires
        encodable(bytes@.len()),
    ensures
        text@ == encoded_text(bytes@, encoding),
{
    match encoding {
        Encoding::Base58 => bs58_encode(bytes),
        Encoding::Base64 => base64_encode(bytes),
    }
}

} // verus!
