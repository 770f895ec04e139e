//! The cryptographic primitives the library calls: Argon2id, AES-256-GCM,
//! the operating system's random source, and secret key storage.
use crate::crypto::{MAX_P_COST, MIN_M_COST, MIN_P_COST, MIN_T_COST};
use aes_gcm::aead::Aead;
use aes_gcm::aead::Error as AeadError;
use aes_gcm::{Aes256Gcm, KeyInit, Nonce};
use argon2::Error as Argon2Error;
use rand_core::RngCore;
use secrecy::{ExposeSecret, SecretBox};
use vstd::prelude::*;
use zeroize::Zeroize;

verus! {

/// A 32-byte key kept in a `secrecy::SecretBox`: wiped from memory when
/// dropped, and printed as `[REDACTED]`.
#[derive(Debug)]
#[verifier::external_body]
pub struct SecretKey {
    inner: SecretBox<[u8; 32]>,
}

/// The 32 key bytes that a `SecretKey` holds.
pub uninterp spec fn secret_key_bytes(key: SecretKey) -> Seq<u8>;

/// What Argon2id (version 0x13, 32-byte output, no secret, no associated
/// data) derives from a password and salt with the given costs.
pub uninterp spec fn argon2id_v13(
    password: Seq<u8>,
    salt: Seq<u8>,
    m_cost: u32,
    t_cost: u32,
    p_cost: u32,
) -> Seq<u8>;

/// The ciphertext (with its 16-byte tag appended) that AES-256-GCM makes
/// of a plaintext under a key and a 12-byte nonce, without associated data.
pub uninterp spec fn aes256gcm_seal(key: Seq<u8>, nonce: Seq<u8>, plaintext: Seq<u8>) -> Seq<u8>;

/// What AES-256-GCM decryption of a ciphertext under a key and nonce
/// gives back: `None` where the tag does not authenticate.
pub uninterp spec fn aes256gcm_open(key: Seq<u8>, nonce: Seq<u8>, ciphertext: Seq<u8>) -> Option<Seq<u8>>;

/// Longest plaintext AES-GCM accepts, in bytes.
pub const AES_GCM_P_MAX: u64 = 0x10_0000_0000;

/// Whether Argon2id takes these inputs: the cost ranges of
/// `argon2::Params::new` (memory at least 8 blocks per lane) and the
/// password and salt lengths that `hash_password_into` accepts.
pub open spec fn argon2_accepts(password: Seq<u8>, salt: Seq<u8>, m_cost: u32, t_cost: u32, p_cost: u32) -> bool {
    &&& m_cost >= MIN_M_COST
    &&& m_cost >= 8 * p_cost
    &&& t_cost >= MIN_T_COST
    &&& MIN_P_COST <= p_cost <= MAX_P_COST
    &&& password.len() <= 0xFFFF_FFFF
    &&& 8 <= salt.len() <= 0xFFFF_FFFF
}

/// `argon2::Params::new(m, t, p, Some(32))`, `Argon2::new(Argon2id, V0x13, ..)`
/// and `hash_password_into` into a 32-byte buffer: the key is
/// `argon2id_v13` of the inputs; it succeeds exactly on the inputs that
/// `argon2_accepts`. (`Params::new` computes `8 * p_cost` in `u32`, hence the
/// bound on `p_cost`.)
#[verifier::external_body]
pub(crate) fn argon2id_hash(password: &[u8], salt: &[u8], m_cost: u32, t_cost: u32, p_cost: u32) -> (r: core::result::Result<[u8; 32], Argon2Error>)
    requires
        p_cost <= 0x1FFF_FFFF,
    ensures
        r is Ok <==> argon2_accepts(password@, salt@, m_cost, t_cost, p_cost),
        r matches Ok(key) ==> key@ == argon2id_v13(password@, salt@, m_cost, t_cost, p_cost),
{
    let params = argon2::Params::new(m_cost, t_cost, p_cost, Some(32))?;
    let argon = argon2::Argon2::new(argon2::Algorithm::Argon2id, argon2::Version::V0x13, params);
    let mut out = [0u8; 32];
    argon.hash_password_into(password, salt, &mut out)?;
    Ok(out)
}

/// The message of an Argon2 error (its `Display`).
#[verifier::external_body]
pub(crate) fn argon2_message(e: &Argon2Error) -> String {
    e.to_string()
}

/// `SecretBox::new`: the box holds exactly the given key.
#[verifier::external_body]
pub(crate) fn box_secret(key: [u8; 32]) -> (s: SecretKey)
    ensures
        secret_key_bytes(s) == key@,
{
    SecretKey { inner: SecretBox::new(Box::new(key)) }
}

/// `ExposeSecret::expose_secret`: the bytes the box holds.
#[verifier::external_body]
pub(crate) fn expose(s: &SecretKey) -> (key: &[u8; 32])
    ensures
        key@ == secret_key_bytes(*s),
{
    s.inner.expose_secret()
}

/// `Zeroize::zeroize` on a 32-byte array: every byte becomes 0.
#[verifier::external_body]
pub(crate) fn wipe_key(key: &mut [u8; 32])
    ensures
        forall|i: int| 0 <= i < 32 ==> final(key)@[i] == 0u8,
{
    key.zeroize();
}

/// `OsRng.fill_bytes` into `n` fresh bytes: the bytes come from the
/// operating system's random source, so nothing is stated of their values.
#[verifier::external_body]
pub(crate) fn os_random_bytes(n: usize) -> (bytes: Vec<u8>)
    ensures
        bytes@.len() == n,
{
    let mut bytes = vec![0u8; n];
    rand_core::OsRng.fill_bytes(&mut bytes);
    bytes
}

/// `Aes256Gcm::encrypt` without associated data: the ciphertext is
/// `aes256gcm_seal` of the inputs, 16 bytes longer than the plaintext; it
/// fails exactly on plaintexts longer than `AES_GCM_P_MAX`.
#[verifier::external_body]
pub(crate) fn aes256gcm_encrypt(key: &[u8; 32], nonce: &[u8; 12], plaintext: &[u8]) -> (r: core::result::Result<Vec<u8>, AeadError>)
    ensures
        r is Ok <==> plaintext@.len() <= AES_GCM_P_MAX,
        r matches Ok(c) ==> c@ == aes256gcm_seal(key@, nonce@, plaintext@),
        r matches Ok(c) ==> c@.len() == plaintext@.len() + 16,
{
    Aes256Gcm::new(key.into()).encrypt(Nonce::from_slice(nonce), plaintext)
}

/// `Aes256Gcm::decrypt` without associated data: gives back
/// `aes256gcm_open` of the inputs, 16 bytes (the tag) shorter than the
/// ciphertext, and the plaintext that was sealed under this key and nonce.
#[verifier::external_body]
pub(crate) fn aes256gcm_decrypt(key: &[u8; 32], nonce: &[u8; 12], ciphertext: &[u8]) -> (r: core::result::Result<Vec<u8>, AeadError>)
    ensures
        r matches Ok(p) ==> p@.len() + 16 == ciphertext@.len(),
        match r {
            Ok(p) => aes256gcm_open(key@, nonce@, ciphertext@) == Some(p@),
            Err(_) => aes256gcm_open(key@, nonce@, ciphertext@) is None,
        },
        r matches Ok(q) ==> forall|p: Seq<u8>|
            p.len() <= AES_GCM_P_MAX && ciphertext@ == #[trigger] aes256gcm_seal(key@, nonce@, p) ==> q@ == p,
        r is Err ==> forall|p: Seq<u8>|
            p.len() <= AES_GCM_P_MAX ==> ciphertext@ != #[trigger] aes256gcm_seal(key@, nonce@, p),
{
    Aes256Gcm::new(key.into()).decrypt(Nonce::from_slice(nonce), ciphertext)
}

/// `Zeroize::zeroize` on a byte vector: its bytes are overwritten with
/// zeros and it is left empty.
#[verifier::external_body]
pub(crate) fn wipe_bytes(bytes: &mut Vec<u8>)
    ensures
        final(bytes)@.len() == 0,
{
    bytes.zeroize();
}

} // verus!
