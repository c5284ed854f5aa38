//! ChaCha20-Poly1305 sealing and opening, with no associated data.
use vstd::prelude::*;

use chacha20poly1305::aead::{Aead, NewAead};

verus! {

/// Length in bytes of a ChaCha20-Poly1305 key.
pub const CIPHER_KEY_LEN: usize = 32;

/// Length in bytes of a nonce.
pub const NONCE_LEN: usize = 12;

/// Length in bytes of the authentication tag.
pub const TAG_LEN: usize = 16;

/// The cipher refuses a message of 2^32 - 1 or more 64-byte blocks.
pub const MAX_BLOCKS: usize = 0xFFFF_FFFF;

/// Whether the cipher takes a message of `n` bytes.
pub open spec fn message_fits(n: nat) -> bool {
    n / 64 < MAX_BLOCKS
}

/// The ciphertext followed by the 16-byte tag that ChaCha20-Poly1305 makes of
/// a plaintext under a key and a nonce, with no associated data.
pub uninterp spec fn chacha20poly1305_seal(key: Seq<u8>, nonce: Seq<u8>, plaintext: Seq<u8>) -> Seq<u8>;

/// `plaintext` is what the cipher recovers from `sealed` under `key` and `nonce`.
pub open spec fn opens_to(key: Seq<u8>, nonce: Seq<u8>, sealed: Seq<u8>, plaintext: Seq<u8>) -> bool {
    message_fits(plaintext.len()) && chacha20poly1305_seal(key, nonce, plaintext) == sealed
}

#[verifier::external_type_specification]
#[verifier::external_body]
pub struct ExAeadError(chacha20poly1305::aead::Error);

/// Relies on `ChaCha20Poly1305::encrypt` (`Aead`, no associated data): it
/// refuses a message of 2^32 - 1 or more 64-byte blocks, and otherwise
/// returns the ciphertext, as long as the plaintext, followed by the tag.
/// `Key::from_slice` and `Nonce::from_slice` need exact lengths.
#[verifier::external_body]
pub(crate) fn aead_seal(key: &[u8], nonce: &[u8], plaintext: &[u8]) -> (r: Result<Vec<u8>, chacha20poly1305::aead::Error>)
    requires
        key@.len() == CIPHER_KEY_LEN,
        nonce@.len() == NONCE_LEN,
    ensures
        r is Ok <==> message_fits(plaintext@.len()),
        r is Ok ==> r->Ok_0@ == chacha20poly1305_seal(key@, nonce@, plaintext@),
        r is Ok ==> r->Ok_0@.len() == plaintext@.len() + TAG_LEN,
{
    let cipher = chacha20poly1305::ChaCha20Poly1305::new(chacha20poly1305::Key::from_slice(key));
    cipher.encrypt(chacha20poly1305::Nonce::from_slice(nonce), plaintext)
}

/// Relies on `ChaCha20Poly1305::decrypt` (`Aead`, no associated data): it
/// returns a plaintext only after the tag over the ciphertext verifies, so
/// what it returns seals back to its input, and the output of a successful
/// `encrypt` under the same key and nonce opens to that plaintext.
#[verifier::external_body]
pub(crate) fn aead_open(key: &[u8], nonce: &[u8], sealed: &[u8]) -> (r: Result<Vec<u8>, chacha20poly1305::aead::Error>)
    requires
        key@.len() == CIPHER_KEY_LEN,
        nonce@.len() == NONCE_LEN,
    ensures
        r is Ok ==> opens_to(key@, nonce@, sealed@, r->Ok_0@),
        forall|p: Seq<u8>| #[trigger] opens_to(key@, nonce@, sealed@, p) ==> (r is Ok && r->Ok_0@ == p),
{
    let cipher = chacha20poly1305::ChaCha20Poly1305::new(chacha20poly1305::Key::from_slice(key));
    cipher.decrypt(chacha20poly1305::Nonce::from_slice(nonce), sealed)
}

} // verus!
