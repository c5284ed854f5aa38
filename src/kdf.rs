//! Key derivation: Argon2id (version 0x13) with a 32-byte output.
use vstd::prelude::*;

use crate::{bytes_result, ProtectError};

verus! {

/// Length in bytes of a derived key.
pub const KEY_LEN: usize = 32;

/// Length in bytes of a salt.
pub const SALT_LEN: usize = 16;

/// Memory cost of the fixed profile, in KiB (256 MiB).
pub const M_COST: u32 = 262144;

/// Number of passes of the fixed profile.
pub const T_COST: u32 = 8;

/// Number of lanes of the fixed profile.
pub const P_COST: u32 = 4;

/// Largest password or salt length that Argon2 accepts.
pub const MAX_INPUT_LEN: usize = 0xFFFF_FFFF;

/// Smallest salt length that Argon2 accepts.
pub const MIN_SALT_LEN: usize = 8;

/// The cost parameters of an Argon2id derivation.
#[derive(Clone, Copy, Debug, PartialEq, Eq, Structural)]
pub struct KdfParams {
    /// Memory size in KiB.
    pub m_cost: u32,
    /// Number of passes over memory.
    pub t_cost: u32,
    /// Number of lanes.
    pub p_cost: u32,
}

/// The key that Argon2id, version 0x13, with the given memory, time and lane
/// costs and a 32-byte output, derives from a password and a salt.
pub uninterp spec fn argon2id_key(m_cost: u32, t_cost: u32, p_cost: u32, password: Seq<u8>, salt: Seq<u8>) -> Seq<u8>;

/// Whether Argon2 accepts the cost parameters: at least 8 KiB of memory per
/// lane and at most 0x0FFFFFFF KiB, at least one pass, 1 to 0xFFFFFF lanes.
pub open spec fn params_valid(p: KdfParams) -> bool {
    &&& 8 <= p.m_cost <= 0x0FFF_FFFF
    &&& 1 <= p.t_cost
    &&& 1 <= p.p_cost <= 0xFF_FFFF
    &&& p.m_cost >= 8 * p.p_cost
}

/// Whether Argon2 accepts a password and a salt of these lengths.
pub open spec fn inputs_valid(password: Seq<u8>, salt: Seq<u8>) -> bool {
    &&& password.len() <= MAX_INPUT_LEN
    &&& MIN_SALT_LEN <= salt.len() <= MAX_INPUT_LEN
}

/// What a derivation with the given parameters returns.
pub open spec fn derived(p: KdfParams, password: Seq<u8>, salt: Seq<u8>) -> Result<Seq<u8>, ProtectError> {
    if params_valid(p) && inputs_valid(password, salt) {
        Ok(argon2id_key(p.m_cost, p.t_cost, p.p_cost, password, salt))
    } else {
        Err(ProtectError::Kdf)
    }
}

/// The fixed cost profile: 256 MiB, 8 passes, 4 lanes.
pub open spec fn fixed_params() -> KdfParams {
    KdfParams { m_cost: M_COST, t_cost: T_COST, p_cost: P_COST }
}

#[verifier::external_type_specification]
#[verifier::external_body]
pub struct ExArgon2Error(argon2::Error);

/// Relies on `argon2::Params::new` followed by `Argon2::hash_password_into`
/// (Argon2id, version 0x13, output length 32): the parameters are refused
/// exactly as `params_valid` says, the password and salt lengths exactly as
/// `inputs_valid` says, and otherwise the 32-byte key is written out.
#[verifier::external_body]
fn argon2id_hash(m_cost: u32, t_cost: u32, p_cost: u32, password: &[u8], salt: &[u8]) -> (r: Result<Vec<u8>, argon2::Error>)
    ensures
        r is Ok <==> (params_valid((KdfParams { m_cost, t_cost, p_cost })) && inputs_valid(password@, salt@)),
        r is Ok ==> r->Ok_0@ == argon2id_key(m_cost, t_cost, p_cost, password@, salt@),
        r is Ok ==> r->Ok_0@.len() == KEY_LEN,
{
    let params = argon2::Params::new(m_cost, t_cost, p_cost, Some(KEY_LEN))?;
    let hasher = argon2::Argon2::new(argon2::Algorithm::Argon2id, argon2::Version::V0x13, params);
    let mut key = [0u8; KEY_LEN];
    hasher.hash_password_into(password, salt, &mut key)?;
    Ok(key.to_vec())
}

/// The fixed cost profile: 256 MiB of memory, 8 passes, 4 lanes.
pub fn default_params() -> (p: KdfParams)
    ensures
        p == fixed_params(),
        params_valid(p),
{
    KdfParams { m_cost: M_COST, t_cost: T_COST, p_cost: P_COST }
}

/// Derives a 32-byte key from a password and a salt under the given costs.
/// Fails with `Kdf` when Argon2 refuses the costs, a password longer than
/// 2^32 - 1 bytes, or a salt outside 8 to 2^32 - 1 bytes.
pub fn derive_with_params(params: KdfParams, password: &[u8], salt: &[u8]) -> (r: Result<Vec<u8>, ProtectError>)
    ensures
        bytes_result(r) == derived(params, password@, salt@),
        r is Ok ==> r->Ok_0@.len() == KEY_LEN,
{
    match argon2id_hash(params.m_cost, params.t_cost, params.p_cost, password, salt) {
        Ok(key) => Ok(key),
        Err(_) => Err(ProtectError::Kdf),
    }
}

/// Derives the 32-byte key for a password and a 16-byte salt under the
/// fixed cost profile. Fails with `Kdf` only for a password longer than
/// 2^32 - 1 bytes.
pub fn derive(password: &[u8], salt: &[u8; SALT_LEN]) -> (r: Result<Vec<u8>, ProtectError>)
    ensures
        bytes_result(r) == derived(fixed_params(), password@, salt@),
        r is Ok <==> password@.len() <= MAX_INPUT_LEN,
        r is Ok ==> r->Ok_0@.len() == KEY_LEN,
{
    derive_with_params(default_params(), password, salt.as_slice())
}

/// Derivation is deterministic: two derivations from the same password and
/// salt under the same costs give the same result, key or error.
pub proof fn lemma_derive_deterministic(
    params: KdfParams,
    password: Seq<u8>,
    salt: Seq<u8>,
    r1: Result<Seq<u8>, ProtectError>,
    r2: Result<Seq<u8>, ProtectError>,
)
    requires
        r1 == derived(params, password, salt),
        r2 == derived(params, password, salt),
    ensures
        r1 == r2,
        r1 is Ok ==> r1->Ok_0 == argon2id_key(params.m_cost, params.t_cost, params.p_cost, password, salt),
{
}

} // verus!
