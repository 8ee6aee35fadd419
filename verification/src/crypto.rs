//! The primitives behind the encrypted cache: SHA-256, AES-256-GCM, base64
//! and a source of fresh nonces. Their contracts are taken on trust.

use vstd::prelude::*;
use aes_gcm::aead::{Aead, KeyInit};
use base64::Engine;
use rand::Rng;
use sha2::Digest;

verus! {

/// Bytes in an AES-GCM nonce.
pub const NONCE_LEN: usize = 12;

/// The SHA-256 digest of `data`.
pub uninterp spec fn sha256(data: Seq<u8>) -> Seq<u8>;

/// What AES-256-GCM encryption without associated data returns for the
/// plaintext under `key` and `nonce`: the ciphertext followed by its tag, or
/// `None` where the cipher refuses the plaintext.
pub uninterp spec fn aes_gcm_seal(key: Seq<u8>, nonce: Seq<u8>, plaintext: Seq<u8>) -> Option<
    Seq<u8>,
>;

/// What AES-256-GCM decryption without associated data returns for `sealed`
/// under `key` and `nonce`: the plaintext, or `None` where the tag does not
/// match.
pub uninterp spec fn aes_gcm_open(key: Seq<u8>, nonce: Seq<u8>, sealed: Seq<u8>) -> Option<
    Seq<u8>,
>;

/// The base64 text (standard alphabet, padded) of `data`.
pub uninterp spec fn base64_encode(data: Seq<u8>) -> Seq<char>;

/// The bytes that `text` stands for in padded standard base64, or `None`
/// where it is not such text.
pub uninterp spec fn base64_decode(text: Seq<char>) -> Option<Seq<u8>>;

/// Feeds `first` and then `second` to a `sha2::Sha256` hasher (`Digest::new`,
/// `update`, `update`, `finalize`). A hasher digests what it was fed in
/// order, so the result is the digest of the two parts joined.
#[verifier::external_body]
pub(crate) fn sha256_of_parts(first: &[u8], second: &[u8]) -> (digest: [u8; 32])
    ensures
        digest@ == sha256(first@ + second@),
{
    let mut hasher = sha2::Sha256::new();
    hasher.update(first);
    hasher.update(second);
    hasher.finalize().into()
}

/// `Aes256Gcm::new_from_slice` followed by `Aead::encrypt`. The cipher
/// accepts every plaintext of at most 2^36 bytes and no longer one; the
/// result is 16 bytes longer than the plaintext; and decrypting it under the
/// same key and nonce recomputes the same tag and gives the plaintext back.
#[verifier::external_body]
pub(crate) fn aes_gcm_encrypt(key: &[u8; 32], nonce: &[u8; 12], plaintext: &[u8]) -> (sealed:
    Result<Vec<u8>, String>)
    ensures
        match sealed {
            Ok(bytes) => {
                &&& aes_gcm_seal(key@, nonce@, plaintext@) == Some(bytes@)
                &&& bytes@.len() == plaintext@.len() + 16
                &&& aes_gcm_open(key@, nonce@, bytes@) == Some(plaintext@)
            },
            Err(_) => aes_gcm_seal(key@, nonce@, plaintext@) is None,
        },
        sealed is Ok <==> plaintext@.len() <= 0x10_0000_0000,
{
    let cipher = aes_gcm::Aes256Gcm::new_from_slice(key).map_err(|e| e.to_string())?;
    cipher.encrypt(aes_gcm::Nonce::from_slice(nonce), plaintext).map_err(|e| e.to_string())
}

/// `Aes256Gcm::new_from_slice` followed by `Aead::decrypt`. Input shorter
/// than a tag is refused. The nonce must be 12 bytes long: `Nonce::from_slice`
/// panics on any other length.
#[verifier::external_body]
pub(crate) fn aes_gcm_decrypt(key: &[u8; 32], nonce: &[u8], sealed: &[u8]) -> (opened: Result<
    Vec<u8>,
    String,
>)
    requires
        nonce@.len() == 12,
    ensures
        match opened {
            Ok(bytes) => aes_gcm_open(key@, nonce@, sealed@) == Some(bytes@),
            Err(_) => aes_gcm_open(key@, nonce@, sealed@) is None,
        },
        sealed@.len() < 16 ==> opened is Err,
{
    let cipher = aes_gcm::Aes256Gcm::new_from_slice(key).map_err(|e| e.to_string())?;
    cipher.decrypt(aes_gcm::Nonce::from_slice(nonce), sealed).map_err(|e| e.to_string())
}

/// `Engine::encode` of `base64::engine::general_purpose::STANDARD`. Decoding
/// the text with the same engine gives the bytes back. The length of the
/// text is computed without overflow for every slice, since no slice holds
/// more than `isize::MAX` bytes.
#[verifier::external_body]
pub(crate) fn base64_encode_standard(data: &[u8]) -> (text: String)
    ensures
        text@ == base64_encode(data@),
        base64_decode(text@) == Some(data@),
{
    base64::engine::general_purpose::STANDARD.encode(data)
}

/// `Engine::decode` of `base64::engine::general_purpose::STANDARD`.
#[verifier::external_body]
pub(crate) fn base64_decode_standard(text: &str) -> (data: Result<Vec<u8>, String>)
    ensures
        match data {
            Ok(bytes) => base64_decode(text@) == Some(bytes@),
            Err(_) => base64_decode(text@) is None,
        },
{
    base64::engine::general_purpose::STANDARD.decode(text).map_err(|e| e.to_string())
}

/// Twelve bytes from `rand::thread_rng()`, by `Rng::fill`. Nothing is known
/// of them.
#[verifier::external_body]
pub(crate) fn random_nonce() -> (nonce: [u8; 12]) {
    let mut nonce = [0u8; 12];
    rand::thread_rng().fill(&mut nonce);
    nonce
}

} // verus!
