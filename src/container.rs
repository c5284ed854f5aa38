//! The container: `base64(salt ‖ ciphertext ‖ tag)`, sealed under a key
//! derived from the password and the salt, with the all-zero nonce.
//!
//! The nonce is the same for every message. That is sound only because every
//! encryption draws a fresh salt, so no key is ever used for two messages:
//! the salt must never be reused or left out of the derivation.
use vstd::prelude::*;

use argon2::password_hash::rand_core::{OsRng, RngCore};

use crate::cipher::{aead_open, aead_seal, chacha20poly1305_seal, message_fits, opens_to, NONCE_LEN, TAG_LEN};
use crate::encoding::{base64_decode, base64_decoded, base64_encode, is_base64_char, is_base64_of};
use crate::kdf::{default_params, derive_with_params, derived, fixed_params, KdfParams, MAX_INPUT_LEN, SALT_LEN};
use crate::{bytes_result, ProtectError};

verus! {

/// Fewest bytes a decoded container can hold: a salt and a tag.
pub const MIN_CONTAINER_LEN: usize = 32;

/// The fixed all-zero nonce.
pub open spec fn zero_nonce() -> Seq<u8> {
    Seq::new(NONCE_LEN as nat, |i: int| 0u8)
}

/// The view of a text result: the characters of a success, or the error.
pub open spec fn text_result(r: Result<String, ProtectError>) -> Result<Seq<char>, ProtectError> {
    match r {
        Ok(s) => Ok(s@),
        Err(e) => Err(e),
    }
}

/// The container bytes for a plaintext: the salt, then the plaintext sealed
/// under the key derived from the password and that salt.
pub open spec fn container_bytes(params: KdfParams, password: Seq<u8>, salt: Seq<u8>, plaintext: Seq<u8>) -> Result<Seq<u8>, ProtectError> {
    match derived(params, password, salt) {
        Ok(key) => Ok(salt + chacha20poly1305_seal(key, zero_nonce(), plaintext)),
        Err(e) => Err(e),
    }
}

/// `r` is what sealing `plaintext` with `password` and `salt` gives: the
/// derivation's error, or the base64 text of the container bytes, which hold
/// the salt, the ciphertext as long as the plaintext, and a 16-byte tag.
pub open spec fn sealed_as(params: KdfParams, password: Seq<u8>, salt: Seq<u8>, plaintext: Seq<u8>, r: Result<Seq<char>, ProtectError>) -> bool {
    match container_bytes(params, password, salt, plaintext) {
        Ok(bytes) => {
            &&& r is Ok
            &&& is_base64_of(bytes, r->Ok_0)
            &&& bytes.len() == salt.len() + plaintext.len() + TAG_LEN
        },
        Err(e) => r == Err::<Seq<char>, ProtectError>(e),
    }
}

/// `r` is what opening the container bytes `bytes` with `password` gives:
/// `Format` below 32 bytes; else the derivation's error for the leading 16
/// bytes as salt; else the plaintext that the rest opens to under that key,
/// or `Authentication` where it opens to none.
pub open spec fn opened_from_bytes(params: KdfParams, password: Seq<u8>, bytes: Seq<u8>, r: Result<Seq<u8>, ProtectError>) -> bool {
    if bytes.len() < MIN_CONTAINER_LEN {
        r == Err::<Seq<u8>, ProtectError>(ProtectError::Format)
    } else {
        let salt = bytes.subrange(0, SALT_LEN as int);
        let sealed = bytes.subrange(SALT_LEN as int, bytes.len() as int);
        match derived(params, password, salt) {
            Ok(key) => {
                &&& r is Ok ==> opens_to(key, zero_nonce(), sealed, r->Ok_0)
                &&& r is Err ==> r == Err::<Seq<u8>, ProtectError>(ProtectError::Authentication)
                &&& forall|p: Seq<u8>| #[trigger] opens_to(key, zero_nonce(), sealed, p) ==> r == Ok::<Seq<u8>, ProtectError>(p)
            },
            Err(e) => r == Err::<Seq<u8>, ProtectError>(e),
        }
    }
}

/// `r` is what opening the container text `text` with `password` gives:
/// `Format` where the decoder refuses the text, which it does for any
/// character outside the base64 alphabet and `=`; otherwise what opening the
/// decoded bytes gives, and a canonical encoding decodes to its own bytes.
pub open spec fn opened_from_text(params: KdfParams, password: Seq<u8>, text: Seq<char>, r: Result<Seq<u8>, ProtectError>) -> bool {
    &&& match base64_decoded(text) {
        Some(bytes) => opened_from_bytes(params, password, bytes, r),
        None => r == Err::<Seq<u8>, ProtectError>(ProtectError::Format),
    }
    &&& forall|bytes: Seq<u8>| #[trigger] is_base64_of(bytes, text) ==> opened_from_bytes(params, password, bytes, r)
    &&& (exists|i: int| 0 <= i < text.len() && !is_base64_char(#[trigger] text[i])) ==> r == Err::<Seq<u8>, ProtectError>(ProtectError::Format)
}

/// Relies on `OsRng::fill_bytes`: sixteen bytes from the operating system's
/// secure random source. Nothing is known of their values.
#[verifier::external_body]
fn random_salt() -> (r: [u8; SALT_LEN]) {
    let mut salt = [0u8; SALT_LEN];
    OsRng.fill_bytes(&mut salt);
    salt
}

/// The bytes of `a` followed by those of `b`.
fn concat(a: &[u8], b: &[u8]) -> (r: Vec<u8>)
    ensures
        r@ == a@ + b@,
{
    let mut out: Vec<u8> = Vec::new();
    let mut i: usize = 0;
    while i < a.len()
        invariant
            i <= a@.len(),
            out@ == a@.subrange(0, i as int),
        decreases a@.len() - i,
    {
        out.push(a[i]);
        i = i + 1;
    }
    let mut j: usize = 0;
    while j < b.len()
        invariant
            j <= b@.len(),
            out@ == a@ + b@.subrange(0, j as int),
        decreases b@.len() - j,
    {
        out.push(b[j]);
        j = j + 1;
    }
    assert(a@.subrange(0, a@.len() as int) == a@);
    assert(b@.subrange(0, b@.len() as int) == b@);
    out
}

/// The all-zero nonce.
fn nonce() -> (r: [u8; NONCE_LEN])
    ensures
        r@ == zero_nonce(),
{
    let r = [0u8; NONCE_LEN];
    assert(r@ =~= zero_nonce());
    r
}

/// Seals `plaintext` into container text with `password` and `salt`, the
/// key derived under the given costs. Fails only where the derivation does.
pub fn seal_container(params: KdfParams, password: &[u8], salt: &[u8; SALT_LEN], plaintext: &[u8]) -> (r: Result<String, ProtectError>)
    requires
        message_fits(plaintext@.len()),
    ensures
        sealed_as(params, password@, salt@, plaintext@, text_result(r)),
{
    let key = match derive_with_params(params, password, salt.as_slice()) {
        Ok(key) => key,
        Err(e) => return Err(e),
    };
    let n = nonce();
    let sealed = match aead_seal(key.as_slice(), n.as_slice(), plaintext) {
        Ok(sealed) => sealed,
        Err(_) => {
            proof {
                assert(false);
            }
            return Err(ProtectError::Authentication);
        },
    };
    let bytes = concat(salt.as_slice(), sealed.as_slice());
    Ok(base64_encode(bytes.as_slice()))
}

/// Opens container text with `password`, the key derived under the given
/// costs. Fails with `Format` where the text does not decode or decodes to
/// fewer than 32 bytes, with the derivation's error, and with
/// `Authentication` where the tag does not verify.
pub fn open_container(params: KdfParams, password: &[u8], text: &str) -> (r: Result<Vec<u8>, ProtectError>)
    ensures
        opened_from_text(params, password@, text@, bytes_result(r)),
        (exists|i: int| 0 <= i < text@.len() && !is_base64_char(#[trigger] text@[i])) ==> r == Err::<Vec<u8>, ProtectError>(ProtectError::Format),
        forall|bytes: Seq<u8>| #[trigger] is_base64_of(bytes, text@) && bytes.len() < MIN_CONTAINER_LEN ==> r == Err::<Vec<u8>, ProtectError>(ProtectError::Format),
{
    let bytes = match base64_decode(text) {
        Ok(bytes) => bytes,
        Err(_) => return Err(ProtectError::Format),
    };
    if bytes.len() < MIN_CONTAINER_LEN {
        return Err(ProtectError::Format);
    }
    let salt = vstd::slice::slice_subrange(bytes.as_slice(), 0, SALT_LEN);
    let sealed = vstd::slice::slice_subrange(bytes.as_slice(), SALT_LEN, bytes.len());
    let key = match derive_with_params(params, password, salt) {
        Ok(key) => key,
        Err(e) => return Err(e),
    };
    let n = nonce();
    match aead_open(key.as_slice(), n.as_slice(), sealed) {
        Ok(plaintext) => Ok(plaintext),
        Err(_) => Err(ProtectError::Authentication),
    }
}

/// Encrypts `plaintext` with `password` under the given 16-byte salt and the
/// fixed cost profile. The salt must be fresh for every message.
pub fn encrypt_with_salt(password: &[u8], salt: &[u8; SALT_LEN], plaintext: &[u8]) -> (r: Result<String, ProtectError>)
    requires
        message_fits(plaintext@.len()),
    ensures
        sealed_as(fixed_params(), password@, salt@, plaintext@, text_result(r)),
        r is Ok <==> password@.len() <= MAX_INPUT_LEN,
{
    seal_container(default_params(), password, salt, plaintext)
}

/// Seals `plaintext` with `password` under a fresh random salt, the key
/// derived under the given costs. Fails only where the derivation does.
pub fn seal_with_fresh_salt(params: KdfParams, password: &[u8], plaintext: &[u8]) -> (r: Result<String, ProtectError>)
    requires
        message_fits(plaintext@.len()),
    ensures
        exists|salt: Seq<u8>| salt.len() == SALT_LEN && #[trigger] sealed_as(params, password@, salt, plaintext@, text_result(r)),
{
    let salt = random_salt();
    let r = seal_container(params, password, &salt, plaintext);
    assert(sealed_as(params, password@, salt@, plaintext@, text_result(r)));
    r
}

/// Encrypts `plaintext` with `password` under a fresh random salt and the
/// fixed cost profile. Fails with `Kdf` only for a password longer than
/// 2^32 - 1 bytes.
pub fn encrypt(password: &[u8], plaintext: &[u8]) -> (r: Result<String, ProtectError>)
    requires
        message_fits(plaintext@.len()),
    ensures
        exists|salt: Seq<u8>| salt.len() == SALT_LEN && #[trigger] sealed_as(fixed_params(), password@, salt, plaintext@, text_result(r)),
        r is Ok <==> password@.len() <= MAX_INPUT_LEN,
{
    seal_with_fresh_salt(default_params(), password, plaintext)
}

/// Decrypts container text with `password` under the fixed cost profile.
/// Fails with `Format` where the text is not base64 or decodes to fewer than
/// 32 bytes, and with `Authentication` where the tag does not verify.
pub fn decrypt(password: &[u8], text: &str) -> (r: Result<Vec<u8>, ProtectError>)
    ensures
        opened_from_text(fixed_params(), password@, text@, bytes_result(r)),
        (exists|i: int| 0 <= i < text@.len() && !is_base64_char(#[trigger] text@[i])) ==> r == Err::<Vec<u8>, ProtectError>(ProtectError::Format),
        forall|bytes: Seq<u8>| #[trigger] is_base64_of(bytes, text@) && bytes.len() < MIN_CONTAINER_LEN ==> r == Err::<Vec<u8>, ProtectError>(ProtectError::Format),
{
    open_container(default_params(), password, text)
}

/// Round trip: opening the text that sealing a plaintext gave, with the same
/// password and costs, gives back that plaintext.
pub proof fn lemma_round_trip(
    params: KdfParams,
    password: Seq<u8>,
    salt: Seq<u8>,
    plaintext: Seq<u8>,
    text: Seq<char>,
    r: Result<Seq<u8>, ProtectError>,
)
    requires
        salt.len() == SALT_LEN,
        message_fits(plaintext.len()),
        sealed_as(params, password, salt, plaintext, Ok(text)),
        opened_from_text(params, password, text, r),
    ensures
        r == Ok::<Seq<u8>, ProtectError>(plaintext),
{
    let key = derived(params, password, salt)->Ok_0;
    let bytes = container_bytes(params, password, salt, plaintext)->Ok_0;
    assert(is_base64_of(bytes, text));
    assert(opened_from_bytes(params, password, bytes, r));
    assert(bytes.subrange(0, SALT_LEN as int) =~= salt);
    assert(bytes.subrange(SALT_LEN as int, bytes.len() as int) =~= chacha20poly1305_seal(key, zero_nonce(), plaintext));
    assert(opens_to(key, zero_nonce(), bytes.subrange(SALT_LEN as int, bytes.len() as int), plaintext));
}

/// A container whose text holds a character outside the base64 alphabet and
/// `=`, or that decodes canonically to fewer than 32 bytes, is refused with
/// `Format`, whatever the password.
pub proof fn lemma_format_rejection(
    params: KdfParams,
    password: Seq<u8>,
    text: Seq<char>,
    r: Result<Seq<u8>, ProtectError>,
)
    requires
        opened_from_text(params, password, text, r),
    ensures
        (exists|i: int| 0 <= i < text.len() && !is_base64_char(#[trigger] text[i])) ==> r == Err::<Seq<u8>, ProtectError>(ProtectError::Format),
        forall|bytes: Seq<u8>| #[trigger] is_base64_of(bytes, text) && bytes.len() < MIN_CONTAINER_LEN ==> r == Err::<Seq<u8>, ProtectError>(ProtectError::Format),
{
}

} // verus!
