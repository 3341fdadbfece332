//! The verified encryption/decryption boundary: key provisioning, encryption
//! of one plaintext byte to a portable serialized ciphertext, and recovery of
//! the byte from such a ciphertext.

use vstd::prelude::*;
use crate::backend::{
    ciphertext_conformant, compatible, decrypted_value, default_config, deserialize_ciphertext,
    fhe_decrypt_u8, fhe_encrypt_u8, generate_client_key, generate_key_pair, key_has_pbs_parameters,
    pbs_key, serialize_ciphertext, supported_config, wf_ciphertext,
};

verus! {

/// Why an operation of the boundary failed.
#[derive(Debug, Clone, Copy, PartialEq, Eq)]
pub enum FheError {
    /// The cryptosystem does not support the requested configuration. Not
    /// reachable through the fixed default configuration, modeled for forward
    /// compatibility.
    Config,
    /// The bytes handed to decryption are not a well-formed serialized
    /// ciphertext.
    Decode,
    /// The ciphertext's cryptosystem parameters do not match the key's.
    Crypto,
}

/// The immutable, parameterless descriptor of the cryptosystem parameters.
/// The default configuration is the only supported one, and the only one a
/// `Configuration` can hold: key generation never aborts on it.
pub struct Configuration {
    inner: tfhe::Config,
}

impl Configuration {
    #[verifier::type_invariant]
    spec fn well_formed(self) -> bool {
        supported_config(self.inner)
    }

    /// The fixed default configuration.
    pub fn new() -> Configuration {
        Configuration { inner: default_config() }
    }
}

/// A matched pair of keys provisioned from one configuration: the client key
/// is the secret material that encrypts and decrypts; the server key would
/// enable homomorphic computation on ciphertexts and is unused by this
/// boundary beyond being produced alongside.
pub struct KeyPair {
    pub client_key: tfhe::ClientKey,
    pub server_key: tfhe::ServerKey,
}

/// Provisions a fresh matched key pair from the configuration, drawing on the
/// secure random source. Each call returns independent key material: keys of
/// two calls do not interoperate. The client key supports encryption.
pub fn provision(config: &Configuration) -> (r: KeyPair)
    ensures
        pbs_key(r.client_key),
{
    proof {
        use_type_invariant(config);
    }
    let (client_key, server_key) = generate_key_pair(&config.inner);
    KeyPair { client_key, server_key }
}

/// Provisions a fresh client key alone, for callers that only encrypt and
/// decrypt and have no use for the server key. The key supports encryption.
pub fn provision_client_key(config: &Configuration) -> (r: tfhe::ClientKey)
    ensures
        pbs_key(r),
{
    proof {
        use_type_invariant(config);
    }
    generate_client_key(&config.inner)
}

/// Whether the client key carries the PBS parameter shape that `encrypt`
/// requires. Keys from `provision` and `provision_client_key` always do; a
/// key assembled from raw parts around another parameter shape does not, and
/// decryption under such a key reports `FheError::Crypto` rather than a value.
pub fn supports_encryption(key: &tfhe::ClientKey) -> (r: bool)
    ensures
        r == pbs_key(*key),
{
    key_has_pbs_parameters(key)
}

/// What decrypting `data` under `key` returns: a decode failure on bytes that
/// are not a well-formed serialized ciphertext, a crypto failure on a
/// ciphertext whose parameters do not match the key's, and otherwise the
/// plaintext byte the ciphertext decrypts to.
pub open spec fn decrypt_spec(data: Seq<u8>, key: tfhe::ClientKey) -> Result<u8, FheError> {
    if !wf_ciphertext(data) {
        Err(FheError::Decode)
    } else if !compatible(data, key) {
        Err(FheError::Crypto)
    } else {
        Ok(decrypted_value(data, key))
    }
}

/// Encrypts one plaintext byte under the client key and returns the
/// serialized ciphertext. The bytes are a well-formed serialized ciphertext
/// that decrypts to exactly `value` under the same key. The key must carry
/// PBS parameters, as every provisioned key does (`supports_encryption` tests
/// a key of unknown origin): the cryptosystem aborts encrypting under any
/// other shape of key.
pub fn encrypt(value: u8, key: &tfhe::ClientKey) -> (r: Vec<u8>)
    requires
        pbs_key(*key),
    ensures
        wf_ciphertext(r@),
        compatible(r@, *key),
        decrypted_value(r@, *key) == value,
        decrypt_spec(r@, *key) == Ok::<u8, FheError>(value),
{
    let ct = fhe_encrypt_u8(value, key);
    serialize_ciphertext(&ct)
}

/// Decrypts a serialized ciphertext under the client key. The result is
/// exactly `decrypt_spec(data@, *key)`: an `FheError::Decode` on bytes that do
/// not decode, an `FheError::Crypto` on a ciphertext incompatible with the
/// key, and otherwise the plaintext byte; never a silently substituted value.
pub fn decrypt(data: &[u8], key: &tfhe::ClientKey) -> (r: Result<u8, FheError>)
    ensures
        r == decrypt_spec(data@, *key),
{
    match deserialize_ciphertext(data) {
        Err(_) => Err(FheError::Decode),
        Ok(ct) => {
            if ciphertext_conformant(&ct, key) {
                Ok(fhe_decrypt_u8(&ct, key))
            } else {
                Err(FheError::Crypto)
            }
        },
    }
}

/// Encrypts one plaintext byte under a key provisioned fresh for this call,
/// and returns the serialized ciphertext. The key is discarded: only a caller
/// that threads its own key material through `encrypt` and `decrypt` can
/// recover the value.
pub fn encrypt_value(value: u8) -> (r: Vec<u8>)
    ensures
        wf_ciphertext(r@),
        exists|k: tfhe::ClientKey| decrypt_spec(r@, k) == Ok::<u8, FheError>(value),
{
    let config = Configuration::new();
    let client_key = provision_client_key(&config);
    let r = encrypt(value, &client_key);
    proof {
        assert(decrypt_spec(r@, client_key) == Ok::<u8, FheError>(value));
    }
    r
}

/// Decrypts a serialized ciphertext under a key provisioned fresh for this
/// call. Bytes that are not a well-formed serialized ciphertext fail with
/// `FheError::Decode`, never with a silently returned value; well-formed
/// bytes were produced under some other, independent key, so the value of a
/// success is unspecified.
pub fn decrypt_value(data: &[u8]) -> (r: Result<u8, FheError>)
    ensures
        r == Err::<u8, FheError>(FheError::Decode) <==> !wf_ciphertext(data@),
        r matches Err(e) ==> e == FheError::Decode || e == FheError::Crypto,
        r matches Ok(v) ==> exists|k: tfhe::ClientKey|
            decrypt_spec(data@, k) == Ok::<u8, FheError>(v),
{
    let config = Configuration::new();
    let client_key = provision_client_key(&config);
    let r = decrypt(data, &client_key);
    proof {
        assert(r == decrypt_spec(data@, client_key));
    }
    r
}

/// Round-trip correctness: a well-formed serialized ciphertext that is
/// compatible with `key` and decrypts to `value` under it — what `encrypt`
/// ensures of its result — decrypts to exactly `value` under that key.
pub proof fn lemma_round_trip(data: Seq<u8>, key: tfhe::ClientKey, value: u8)
    requires
        wf_ciphertext(data),
        compatible(data, key),
        decrypted_value(data, key) == value,
    ensures
        decrypt_spec(data, key) == Ok::<u8, FheError>(value),
{
}

/// Deterministic decryption: any two decryptions of the same serialized
/// ciphertext under the same key return the same result, though encryption of
/// the same value is free to differ between calls.
pub proof fn lemma_decrypt_deterministic(
    data: Seq<u8>,
    key: tfhe::ClientKey,
    r1: Result<u8, FheError>,
    r2: Result<u8, FheError>,
)
    requires
        r1 == decrypt_spec(data, key),
        r2 == decrypt_spec(data, key),
    ensures
        r1 == r2,
{
}

/// Decode failure on garbage: bytes that are not a well-formed serialized
/// ciphertext decrypt to a decode failure under every key — never to a value.
pub proof fn lemma_garbage_rejected(data: Seq<u8>, key: tfhe::ClientKey)
    requires
        !wf_ciphertext(data),
    ensures
        decrypt_spec(data, key) == Err::<u8, FheError>(FheError::Decode),
{
}

} // verus!
