//! AES-256-GCM primitives and the process-wide secure random source.
//!
//! The two cipher calls are deterministic functions of key, nonce and
//! message, named here by the uninterpreted functions [`aead_seal`] and
//! [`aead_open`]; every contract in the symmetric layer speaks of those
//! names. Randomness comes only from the generators below, which draw from
//! the operating system's secure source on every call.

use aes_gcm::aead::{Aead, Generate};
use aes_gcm::KeyInit;
use vstd::prelude::*;

verus! {

/// Longest plaintext AES-256-GCM accepts (NIST SP 800-38D): 2^36 - 32 bytes.
pub const AES_GCM_P_MAX: u64 = 68719476704;

/// What AES-256-GCM encryption produces for a key, nonce and plaintext:
/// the ciphertext with its 16-byte authentication tag appended.
pub uninterp spec fn aead_seal(key: Seq<u8>, nonce: Seq<u8>, plaintext: Seq<u8>) -> Seq<u8>;

/// What AES-256-GCM decryption returns for a key, nonce and ciphertext:
/// the plaintext when the authentication tag verifies, nothing otherwise.
pub uninterp spec fn aead_open(key: Seq<u8>, nonce: Seq<u8>, ciphertext: Seq<u8>) -> Option<
    Seq<u8>,
>;

/// Relies on aes_gcm::Aes256Gcm through aead::Aead::encrypt: encryption is
/// a deterministic function of key, nonce and plaintext; it appends a
/// 16-byte tag, fails exactly on plaintexts longer than the GCM limit, and
/// its output decrypts back to the plaintext under the same key and nonce.
#[verifier::external_body]
pub(crate) fn aes256_gcm_seal(key: &Vec<u8>, nonce: &Vec<u8>, plaintext: &Vec<u8>) -> (r: Option<
    Vec<u8>,
>)
    requires
        key@.len() == 32,
        nonce@.len() == 12,
    ensures
        r is Some <==> plaintext@.len() <= AES_GCM_P_MAX,
        r is Some ==> r.unwrap()@ == aead_seal(key@, nonce@, plaintext@),
        r is Some ==> r.unwrap()@.len() == plaintext@.len() + 16,
        r is Some ==> aead_open(key@, nonce@, r.unwrap()@) == Some(plaintext@),
{
    let cipher = match aes_gcm::Aes256Gcm::new_from_slice(key.as_slice()) {
        Ok(c) => c,
        Err(_) => return None,
    };
    let n = match aes_gcm::aead::Nonce::<aes_gcm::Aes256Gcm>::try_from(nonce.as_slice()) {
        Ok(n) => n,
        Err(_) => return None,
    };
    cipher.encrypt(&n, plaintext.as_slice()).ok()
}

/// Relies on aes_gcm::Aes256Gcm through aead::Aead::decrypt: decryption is
/// a deterministic function of key, nonce and ciphertext, returning the
/// plaintext exactly when the authentication tag verifies.
#[verifier::external_body]
pub(crate) fn aes256_gcm_open(key: &Vec<u8>, nonce: &Vec<u8>, ciphertext: &Vec<u8>) -> (r: Option<
    Vec<u8>,
>)
    requires
        key@.len() == 32,
        nonce@.len() == 12,
    ensures
        r is Some <==> aead_open(key@, nonce@, ciphertext@) is Some,
        r is Some ==> r.unwrap()@ == aead_open(key@, nonce@, ciphertext@).unwrap(),
{
    let cipher = match aes_gcm::Aes256Gcm::new_from_slice(key.as_slice()) {
        Ok(c) => c,
        Err(_) => return None,
    };
    let n = match aes_gcm::aead::Nonce::<aes_gcm::Aes256Gcm>::try_from(nonce.as_slice()) {
        Ok(n) => n,
        Err(_) => return None,
    };
    cipher.decrypt(&n, ciphertext.as_slice()).ok()
}

/// Relies on crypto-common's Generate impl for byte arrays, backed by the
/// operating system's secure random source (getrandom): 32 fresh key bytes.
/// Panics only if the system random source fails, as the upstream generator
/// does.
#[verifier::external_body]
pub(crate) fn fresh_key_bytes() -> (r: Vec<u8>)
    ensures
        r@.len() == 32,
{
    let bytes: [u8; 32] = Generate::generate();
    bytes.to_vec()
}

/// Relies on crypto-common's Generate impl for byte arrays, backed by the
/// operating system's secure random source (getrandom): a fresh 96-bit
/// nonce, drawn anew on every call. Panics only if the system random source
/// fails, as the upstream generator does.
#[verifier::external_body]
pub(crate) fn fresh_nonce_bytes() -> (r: Vec<u8>)
    ensures
        r@.len() == 12,
{
    let bytes: [u8; 12] = Generate::generate();
    bytes.to_vec()
}

} // verus!
