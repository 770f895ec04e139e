use crate::error::Error;
use crate::primitives::{
    aes256gcm_decrypt, aes256gcm_encrypt, aes256gcm_open, aes256gcm_seal, argon2_accepts,
    argon2_message, argon2id_hash, argon2id_v13, box_secret, expose, os_random_bytes,
    secret_key_bytes, wipe_bytes, wipe_key, SecretKey, AES_GCM_P_MAX,
};
use vstd::prelude::*;

verus! {

/// Smallest memory cost Argon2 accepts (in KiB blocks).
pub const MIN_M_COST: u32 = 8;
/// Smallest time cost (iterations) Argon2 accepts.
pub const MIN_T_COST: u32 = 1;
/// Smallest degree of parallelism Argon2 accepts.
pub const MIN_P_COST: u32 = 1;
/// Largest degree of parallelism Argon2 accepts.
pub const MAX_P_COST: u32 = 0xFF_FFFF;
/// Argon2's default memory cost: 19 MiB.
pub const DEFAULT_M_COST: u32 = 19456;
/// Argon2's default time cost.
pub const DEFAULT_T_COST: u32 = 2;
/// Argon2's default degree of parallelism.
pub const DEFAULT_P_COST: u32 = 1;

/// Copies exactly `N` bytes into an array.
pub(crate) fn to_array<const N: usize>(bytes: &[u8]) -> (a: [u8; N])
    requires
        bytes@.len() == N,
    ensures
        a@ == bytes@,
{
    let mut a: [u8; N] = vstd::array::array_fill_for_copy_types(0u8);
    let mut i: usize = 0;
    while i < N
        invariant
            i <= N,
            bytes@.len() == N,
            a@.len() == N,
            forall|j: int| 0 <= j < i ==> a@[j] == bytes@[j],
        decreases N - i,
    {
        a[i] = bytes[i];
        i = i + 1;
    }
    assert(a@ =~= bytes@);
    a
}

impl SecretKey {
    /// The key bytes.
    pub fn expose_secret(&self) -> (key: &[u8; 32])
        ensures
            key@ == secret_key_bytes(*self),
    {
        expose(self)
    }
}

/// Argon2id key-derivation parameters: memory cost (KiB blocks), time
/// cost (iterations) and degree of parallelism.
#[derive(Debug, Clone, Copy, PartialEq, Eq)]
pub struct KdfParams {
    memory_cost: u32,
    time_cost: u32,
    parallel_cost: u32,
}

impl View for KdfParams {
    /// `(memory_cost, time_cost, parallel_cost)`
    type V = (u32, u32, u32);

    closed spec fn view(&self) -> (u32, u32, u32) {
        (self.memory_cost, self.time_cost, self.parallel_cost)
    }
}

/// Whether the three costs lie in the ranges Argon2id accepts on their own.
pub open spec fn kdf_costs_in_range(memory_cost: u32, time_cost: u32, parallel_cost: u32) -> bool {
    &&& MIN_M_COST <= memory_cost
    &&& MIN_T_COST <= time_cost
    &&& MIN_P_COST <= parallel_cost <= MAX_P_COST
}

impl Default for KdfParams {
    /// Argon2's default costs.
    fn default() -> (p: Self)
        ensures
            p@ == (DEFAULT_M_COST, DEFAULT_T_COST, DEFAULT_P_COST),
    {
        KdfParams {
            memory_cost: DEFAULT_M_COST,
            time_cost: DEFAULT_T_COST,
            parallel_cost: DEFAULT_P_COST,
        }
    }
}

impl KdfParams {
    /// Constructs validated KDF params, or returns [`Error::Config`] if any
    /// value is outside Argon2's accepted range.
    pub fn new(memory_cost: u32, time_cost: u32, parallel_cost: u32) -> (r: Result<Self, Error>)
        ensures
            r is Ok <==> kdf_costs_in_range(memory_cost, time_cost, parallel_cost),
            r matches Ok(p) ==> p@ == (memory_cost, time_cost, parallel_cost),
            r matches Err(e) ==> e is Config,
    {
        if !(MIN_M_COST <= memory_cost) || !(MIN_T_COST <= time_cost) || !(MIN_P_COST
            <= parallel_cost && parallel_cost <= MAX_P_COST) {
            return Err(Error::Config("KdfParams not correct".to_string()));
        }
        Ok(KdfParams { memory_cost, time_cost, parallel_cost })
    }

    /// KDF parameters with the given costs as they were stored, unchecked:
    /// [`derive_kek`] refuses costs that Argon2id does not accept.
    pub fn from_costs(memory_cost: u32, time_cost: u32, parallel_cost: u32) -> (p: Self)
        ensures
            p@ == (memory_cost, time_cost, parallel_cost),
    {
        KdfParams { memory_cost, time_cost, parallel_cost }
    }

    /// Memory cost in KiB blocks.
    pub fn memory_cost(&self) -> (m: u32)
        ensures
            m == self@.0,
    {
        self.memory_cost
    }

    /// Time cost (iterations).
    pub fn time_cost(&self) -> (t: u32)
        ensures
            t == self@.1,
    {
        self.time_cost
    }

    /// Degree of parallelism.
    pub fn parallel_cost(&self) -> (p: u32)
        ensures
            p == self@.2,
    {
        self.parallel_cost
    }
}

/// Derives the Key Encryption Key (KEK) from the user's password.
///
/// Uses Argon2id with the parameters in `params`. The salt is non-secret and
/// must be persisted alongside the wrapped DEK so the same key can be derived
/// on the next session. Returns [`Error::Crypto`] if Argon2 rejects the
/// parameters, the password or the salt.
pub fn derive_kek(password: &[u8], salt: &[u8], params: &KdfParams) -> (r: Result<SecretKey, Error>)
    ensures
        r is Ok <==> argon2_accepts(password@, salt@, params@.0, params@.1, params@.2),
        r matches Ok(k) ==> secret_key_bytes(k) == argon2id_v13(
            password@,
            salt@,
            params@.0,
            params@.1,
            params@.2,
        ),
        r matches Err(e) ==> e is Crypto,
{
    if params.parallel_cost > MAX_P_COST {
        return Err(Error::Crypto("too many threads".to_string()));
    }
    match argon2id_hash(password, salt, params.memory_cost, params.time_cost, params.parallel_cost) {
        Ok(kek) => {
            let mut kek = kek;
            let key = box_secret(kek);
            wipe_key(&mut kek);
            Ok(key)
        },
        Err(e) => Err(Error::Crypto(argon2_message(&e))),
    }
}

/// Generates a fresh Data Encryption Key (DEK) from the OS's secure random
/// source. Nothing is stated of the bytes: they are the random source's.
pub fn generate_dek() -> (key: SecretKey)
    ensures
        secret_key_bytes(key).len() == 32,
{
    let bytes = os_random_bytes(32);
    let key: [u8; 32] = to_array(bytes.as_slice());
    box_secret(key)
}

/// What a ciphertext holds beside its nonce, as a specification sees it.
pub struct SealedView {
    pub nonce: Seq<u8>,
    pub ciphertext: Seq<u8>,
}

/// A DEK encrypted by the KEK, stored on disk as part of vault metadata.
#[derive(Debug, Clone, Copy, PartialEq, Eq)]
pub struct WrappedDek {
    nonce: [u8; 12],
    ciphertext: [u8; 48],
}

impl View for WrappedDek {
    type V = SealedView;

    closed spec fn view(&self) -> SealedView {
        SealedView { nonce: self.nonce@, ciphertext: self.ciphertext@ }
    }
}

impl WrappedDek {
    /// A wrapped DEK made of its nonce and ciphertext.
    pub fn from_parts(nonce: [u8; 12], ciphertext: [u8; 48]) -> (w: Self)
        ensures
            w@.nonce == nonce@,
            w@.ciphertext == ciphertext@,
    {
        WrappedDek { nonce, ciphertext }
    }

    /// The nonce the DEK was encrypted with.
    pub fn nonce(&self) -> (n: [u8; 12])
        ensures
            n@ == self@.nonce,
    {
        self.nonce
    }

    /// The encrypted DEK with its tag.
    pub fn ciphertext(&self) -> (c: [u8; 48])
        ensures
            c@ == self@.ciphertext,
    {
        self.ciphertext
    }
}

/// Encrypted entry with its nonce
#[derive(Debug, Clone, PartialEq, Eq)]
pub struct EncryptedEntry {
    nonce: [u8; 12],
    ciphertext: Vec<u8>,
}

impl View for EncryptedEntry {
    type V = SealedView;

    closed spec fn view(&self) -> SealedView {
        SealedView { nonce: self.nonce@, ciphertext: self.ciphertext@ }
    }
}

impl EncryptedEntry {
    /// An encrypted entry made of its nonce and ciphertext.
    pub fn from_parts(nonce: [u8; 12], ciphertext: Vec<u8>) -> (e: Self)
        ensures
            e@.nonce == nonce@,
            e@.ciphertext == ciphertext@,
    {
        EncryptedEntry { nonce, ciphertext }
    }

    /// The nonce the entry was encrypted with.
    pub fn nonce(&self) -> (n: [u8; 12])
        ensures
            n@ == self@.nonce,
    {
        self.nonce
    }

    /// The encrypted entry with its tag.
    pub fn ciphertext(&self) -> (c: &[u8])
        ensures
            c@ == self@.ciphertext,
    {
        self.ciphertext.as_slice()
    }
}

/// Twelve fresh nonce bytes from the OS's random source.
pub(crate) fn fresh_nonce() -> (n: [u8; 12]) {
    let bytes = os_random_bytes(12);
    to_array(bytes.as_slice())
}

/// Encrypts a Data Encryption Key (DEK) with a Key Encryption Key (KEK)
/// under the given 96-bit nonce, with AES-256-GCM.
pub fn wrap_dek_with_nonce(kek: &SecretKey, dek: &SecretKey, nonce: [u8; 12]) -> (w: WrappedDek)
    ensures
        w@.nonce == nonce@,
        w@.ciphertext == aes256gcm_seal(secret_key_bytes(*kek), nonce@, secret_key_bytes(*dek)),
{
    let key = expose(kek);
    let plain = expose(dek);
    let sealed = aes256gcm_encrypt(key, &nonce, plain.as_slice());
    match sealed {
        Ok(c) => {
            let ciphertext: [u8; 48] = to_array(c.as_slice());
            WrappedDek { nonce, ciphertext }
        },
        Err(_) => {
            assert(false);
            WrappedDek { nonce, ciphertext: [0u8; 48] }
        },
    }
}

/// Encrypts a Data Encryption Key (DEK) with a Key Encryption Key (KEK).
///
/// Generates a fresh 96-bit nonce and encrypts the DEK with AES-256-GCM.
/// The result is persisted to disk and unwrapped on the next session.
pub fn wrap_dek(kek: &SecretKey, dek: &SecretKey) -> (r: Result<WrappedDek, Error>)
    ensures
        r matches Ok(w) && w@.ciphertext == aes256gcm_seal(
            secret_key_bytes(*kek),
            w@.nonce,
            secret_key_bytes(*dek),
        ),
{
    Ok(wrap_dek_with_nonce(kek, dek, fresh_nonce()))
}

/// Decrypts a wrapped DEK using the KEK.
///
/// Returns [`Error::WrongPassword`] if decryption fails authentication; the
/// 48-byte ciphertext of a wrapped DEK always opens to 32 bytes, so the key
/// length check never fails. A DEK wrapped under this KEK comes back
/// unchanged.
pub fn unwrap_dek(kek: &SecretKey, wrapped: &WrappedDek) -> (r: Result<SecretKey, Error>)
    ensures
        match aes256gcm_open(secret_key_bytes(*kek), wrapped@.nonce, wrapped@.ciphertext) {
            None => r matches Err(Error::WrongPassword),
            Some(p) => if p.len() == 32 {
                r matches Ok(k) && secret_key_bytes(k) == p
            } else {
                r matches Err(Error::Crypto(_))
            },
        },
        forall|dek: Seq<u8>|
            dek.len() == 32 && wrapped@.ciphertext == #[trigger] aes256gcm_seal(
                secret_key_bytes(*kek),
                wrapped@.nonce,
                dek,
            ) ==> (r matches Ok(k) && secret_key_bytes(k) == dek),
        r is Err ==> r matches Err(Error::WrongPassword),
{
    let key = expose(kek);
    match aes256gcm_decrypt(key, &wrapped.nonce, wrapped.ciphertext.as_slice()) {
        Err(_) => Err(Error::WrongPassword),
        Ok(plaintext) => {
            let mut plaintext = plaintext;
            if plaintext.len() != 32 {
                wipe_bytes(&mut plaintext);
                return Err(Error::Crypto("unexpected DEK length".to_string()));
            }
            let mut dek: [u8; 32] = to_array(plaintext.as_slice());
            wipe_bytes(&mut plaintext);
            let secret = box_secret(dek);
            wipe_key(&mut dek);
            Ok(secret)
        },
    }
}

/// Encrypts an encoded clipboard entry with the data encryption key under
/// the given nonce, with AES-256-GCM. Fails with [`Error::Crypto`] only on
/// plaintexts longer than AES-GCM accepts.
pub fn encrypt_entry_with_nonce(dek: &SecretKey, plaintext: &[u8], nonce: [u8; 12]) -> (r: Result<EncryptedEntry, Error>)
    ensures
        r is Ok <==> plaintext@.len() <= AES_GCM_P_MAX,
        r matches Ok(e) ==> e@.nonce == nonce@ && e@.ciphertext == aes256gcm_seal(
            secret_key_bytes(*dek),
            nonce@,
            plaintext@,
        ),
        r matches Ok(e) ==> e@.ciphertext.len() == plaintext@.len() + 16,
        r matches Err(e) ==> e is Crypto,
{
    let key = expose(dek);
    match aes256gcm_encrypt(key, &nonce, plaintext) {
        Ok(ciphertext) => Ok(EncryptedEntry { nonce, ciphertext }),
        Err(_) => Err(Error::Crypto("Encrypting entry is failed".to_string())),
    }
}

/// Encrypts an encoded clipboard entry with the data encryption key.
///
/// Uses AES-256-GCM with a fresh random nonce. The result includes both the
/// nonce and the ciphertext.
pub fn encrypt_entry(dek: &SecretKey, plaintext: &[u8]) -> (r: Result<EncryptedEntry, Error>)
    ensures
        r is Ok <==> plaintext@.len() <= AES_GCM_P_MAX,
        r matches Ok(e) ==> e@.ciphertext == aes256gcm_seal(
            secret_key_bytes(*dek),
            e@.nonce,
            plaintext@,
        ),
        r matches Ok(e) ==> e@.ciphertext.len() == plaintext@.len() + 16,
        r matches Err(e) ==> e is Crypto,
{
    encrypt_entry_with_nonce(dek, plaintext, fresh_nonce())
}

/// Decrypts an entry back to its encoding. Returns [`Error::Crypto`] if
/// the ciphertext does not authenticate under the key and nonce; what was
/// encrypted under this key comes back unchanged.
pub fn decrypt_entry(dek: &SecretKey, encrypted: &EncryptedEntry) -> (r: Result<Vec<u8>, Error>)
    ensures
        match aes256gcm_open(secret_key_bytes(*dek), encrypted@.nonce, encrypted@.ciphertext) {
            None => r matches Err(Error::Crypto(_)),
            Some(p) => r matches Ok(q) && q@ == p,
        },
        r matches Ok(q) ==> q@.len() + 16 == encrypted@.ciphertext.len(),
        forall|p: Seq<u8>|
            p.len() <= AES_GCM_P_MAX && encrypted@.ciphertext == #[trigger] aes256gcm_seal(
                secret_key_bytes(*dek),
                encrypted@.nonce,
                p,
            ) ==> (r matches Ok(q) && q@ == p),
{
    let key = expose(dek);
    match aes256gcm_decrypt(key, &encrypted.nonce, encrypted.ciphertext.as_slice()) {
        Ok(plaintext) => Ok(plaintext),
        Err(_) => Err(Error::Crypto("Decrypting failed".to_string())),
    }
}

} // verus!
