//! Password-based authenticated encryption of a byte payload.
//!
//! A key is derived from the password and a fresh 16-byte salt with
//! Argon2id, the payload is sealed with ChaCha20-Poly1305 under the fixed
//! all-zero nonce, and the container `salt ‖ ciphertext ‖ tag` is written
//! out as padded standard base64.
use vstd::prelude::*;

pub mod cipher;
pub mod container;
pub mod encoding;
pub mod kdf;

verus! {

/// The ways in which an operation on a container can fail.
#[derive(Clone, Copy, Debug, PartialEq, Eq, Structural)]
pub enum ProtectError {
    /// The container text is not base64, or decodes to fewer than 32 bytes.
    Format,
    /// The authentication tag did not verify: wrong password or altered data.
    Authentication,
    /// The key derivation refused its parameters or inputs.
    Kdf,
}

/// The two operations a caller can select.
#[derive(Clone, Copy, Debug, PartialEq, Eq, Structural)]
pub enum Mode {
    Decrypt,
    Encrypt,
}

/// The view of a byte result: the bytes of a success, or the error.
pub open spec fn bytes_result(r: Result<Vec<u8>, ProtectError>) -> Result<Seq<u8>, ProtectError> {
    match r {
        Ok(v) => Ok(v@),
        Err(e) => Err(e),
    }
}

} // verus!
