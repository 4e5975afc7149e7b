use vstd::prelude::*;

verus! {

/// The standard base64 text, with padding, of a sequence of bytes: what
/// `Engine::encode` of `base64::engine::general_purpose::STANDARD` returns.
pub uninterp spec fn base64_standard(bytes: Seq<u8>) -> Seq<char>;

/// `Rng::gen` on `rand::thread_rng()`: 32 bytes drawn at random. Nothing is
/// claimed of them.
#[verifier::external_body]
fn random_bytes() -> [u8; 32] {
    rand::Rng::gen(&mut rand::thread_rng())
}

/// `Engine::encode` of the `STANDARD` engine on 32 bytes. The text depends
/// on the bytes alone, and 32 bytes always come to 44 characters: ten full
/// groups of three bytes and one padded group.
#[verifier::external_body]
fn base64_encode(bytes: &[u8; 32]) -> (text: String)
    ensures
        text@ == base64_standard(bytes@),
        text@.len() == 44,
{
    base64::Engine::encode(&base64::engine::general_purpose::STANDARD, bytes)
}

/// The text form of a key of 32 bytes.
pub fn encode_secret(bytes: &[u8; 32]) -> (text: String)
    ensures
        text@ == base64_standard(bytes@),
        text@.len() == 44,
{
    base64_encode(bytes)
}

/// A fresh random key in text form: the standard base64 text of 32 bytes
/// drawn at random, 44 characters long.
pub fn generate_random_base64_value() -> (text: String)
    ensures
        exists|bytes: Seq<u8>| bytes.len() == 32 && text@ == #[trigger] base64_standard(bytes),
        text@.len() == 44,
{
    let bytes = random_bytes();
    encode_secret(&bytes)
}

} // verus!
