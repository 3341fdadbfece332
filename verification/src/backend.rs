//! The boundary to the outside cryptosystem and its codec.
//!
//! Everything in this module is trusted: the contracts below state what the
//! outside crates (tfhe and bincode) are documented to do, and the rest of the
//! library is verified against them.

use vstd::prelude::*;
use tfhe::prelude::FheDecrypt;
use tfhe::prelude::FheEncrypt;
use tfhe::conformance::ParameterSetConformant;

verus! {

#[verifier::external_type_specification]
#[verifier::external_body]
pub struct ExConfig(tfhe::Config);

#[verifier::external_type_specification]
#[verifier::external_body]
pub struct ExClientKey(tfhe::ClientKey);

#[verifier::external_type_specification]
#[verifier::external_body]
pub struct ExServerKey(tfhe::ServerKey);

#[verifier::external_type_specification]
#[verifier::external_body]
pub struct ExBincodeErrorKind(bincode::ErrorKind);

/// The encrypted representation of one plaintext byte.
///
/// The inner tfhe ciphertext is opaque: nothing is stated about a `Ciphertext`
/// except through the byte encoding `ct_bytes` gives it. A `Ciphertext` exists
/// only transiently, between encryption and serialization or between
/// deserialization and decryption.
#[verifier::external_body]
pub struct Ciphertext {
    inner: tfhe::FheUint8,
}

/// Whether the byte sequence is a well-formed serialized ciphertext: exactly
/// the bytes on which bincode's decoding of a ciphertext succeeds.
pub uninterp spec fn wf_ciphertext(data: Seq<u8>) -> bool;

/// The byte encoding bincode gives a ciphertext, a function of the ciphertext
/// alone.
pub uninterp spec fn ct_bytes(ct: Ciphertext) -> Seq<u8>;

/// Whether the ciphertext the bytes encode is conformant with the
/// cryptosystem parameters of `key`, a function of the bytes and the key
/// alone. A key whose parameter set holds no PBS parameters admits no
/// ciphertext at all: for it this is false of every byte sequence.
pub uninterp spec fn compatible(data: Seq<u8>, key: tfhe::ClientKey) -> bool;

/// Whether the key's parameter set holds PBS parameters — the shape of every
/// key provisioned through a high-level configuration. tfhe's encryption
/// aborts on a key without them, so encryption is offered only for such keys.
pub uninterp spec fn pbs_key(key: tfhe::ClientKey) -> bool;

/// Whether tfhe's key generation supports the configuration: its parameter
/// set carries a message modulus key generation accepts. The default
/// configuration is supported; tfhe aborts key generation for a configuration
/// built around any other modulus.
pub uninterp spec fn supported_config(config: tfhe::Config) -> bool;

/// The plaintext byte that decrypting the ciphertext the bytes encode yields
/// under `key`: decryption is deterministic, a function of the bytes and the
/// key alone.
pub uninterp spec fn decrypted_value(data: Seq<u8>, key: tfhe::ClientKey) -> u8;

/// Relies on tfhe's `ConfigBuilder`: the default builder yields the fixed
/// default cryptosystem configuration, whose message modulus key generation
/// accepts.
#[verifier::external_body]
pub(crate) fn default_config() -> (r: tfhe::Config)
    ensures
        supported_config(r),
{
    tfhe::ConfigBuilder::default().build()
}

/// Relies on `tfhe::generate_keys`: it draws fresh client and server key
/// material from the secure random source. Nothing is promised of the key
/// values; the client key does carry PBS parameters, since a high-level
/// configuration holds no other parameter shape. Unsupported configurations
/// are excluded: on those tfhe's key generation aborts.
#[verifier::external_body]
pub(crate) fn generate_key_pair(config: &tfhe::Config) -> (r: (tfhe::ClientKey, tfhe::ServerKey))
    requires
        supported_config(*config),
    ensures
        pbs_key(r.0),
{
    tfhe::generate_keys(*config)
}

/// Relies on `tfhe::ClientKey::generate`: it draws a fresh secret key from
/// the secure random source. Nothing is promised of the key value; it does
/// carry PBS parameters, since a high-level configuration holds no other
/// parameter shape. Unsupported configurations are excluded: on those tfhe's
/// key generation aborts.
#[verifier::external_body]
pub(crate) fn generate_client_key(config: &tfhe::Config) -> (r: tfhe::ClientKey)
    requires
        supported_config(*config),
    ensures
        pbs_key(r),
{
    tfhe::ClientKey::generate(*config)
}

/// Relies on tfhe's `ShortintParameterSet::pbs_parameters`: whether the
/// key's parameter set holds PBS parameters.
#[verifier::external_body]
pub(crate) fn key_has_pbs_parameters(key: &tfhe::ClientKey) -> (r: bool)
    ensures
        r == pbs_key(*key),
{
    let (integer_key, _compact, _compression, _tag) = key.clone().into_raw_parts();
    integer_key.into_raw_parts().parameters.pbs_parameters().is_some()
}

/// Relies on `FheUint8::encrypt` (tfhe's `FheEncrypt`): whatever randomness
/// the encryption draws, the returned ciphertext's byte encoding is
/// well-formed, conformant with `key`'s parameters, and decrypts to `value`
/// under `key`. Keys without PBS parameters are excluded: on those tfhe's
/// encryption aborts.
#[verifier::external_body]
pub(crate) fn fhe_encrypt_u8(value: u8, key: &tfhe::ClientKey) -> (r: Ciphertext)
    requires
        pbs_key(*key),
    ensures
        wf_ciphertext(ct_bytes(r)),
        compatible(ct_bytes(r), *key),
        decrypted_value(ct_bytes(r), *key) == value,
{
    Ciphertext { inner: tfhe::FheUint8::encrypt(value, key) }
}

/// Relies on `bincode::serialize`: the deterministic binary encoding of the
/// ciphertext. Serializing a ciphertext is plain in-memory data traversal and
/// cannot fail, so the error case is unreachable.
#[verifier::external_body]
pub(crate) fn serialize_ciphertext(ct: &Ciphertext) -> (r: Vec<u8>)
    ensures
        r@ == ct_bytes(*ct),
{
    bincode::serialize(&ct.inner).unwrap()
}

/// Relies on `bincode::deserialize`: decoding succeeds exactly on well-formed
/// serialized ciphertexts, and the decoded ciphertext re-encodes to bytes
/// that are conformant with, and decrypt to, the same values as the input
/// bytes under every key.
#[verifier::external_body]
pub(crate) fn deserialize_ciphertext(data: &[u8]) -> (r: Result<Ciphertext, bincode::Error>)
    ensures
        r matches Ok(ct) ==> wf_ciphertext(data@)
            && wf_ciphertext(ct_bytes(ct))
            && (forall|k: tfhe::ClientKey| compatible(ct_bytes(ct), k) == compatible(data@, k))
            && (forall|k: tfhe::ClientKey|
                decrypted_value(ct_bytes(ct), k) == decrypted_value(data@, k)),
        r matches Err(_) ==> !wf_ciphertext(data@),
{
    bincode::deserialize(data).map(|inner| Ciphertext { inner })
}

/// Relies on tfhe's `ParameterSetConformant::is_conformant` for `FheUint8`,
/// with the conformance parameters built from `key`'s own PBS parameters:
/// true exactly when the ciphertext's shape matches the key's cryptosystem
/// parameters. For a key without PBS parameters no conformance parameters
/// exist, and no ciphertext is compatible with it.
#[verifier::external_body]
pub(crate) fn ciphertext_conformant(ct: &Ciphertext, key: &tfhe::ClientKey) -> (r: bool)
    ensures
        r == compatible(ct_bytes(*ct), *key),
{
    let (integer_key, _compact, _compression, _tag) = key.clone().into_raw_parts();
    match integer_key.into_raw_parts().parameters.pbs_parameters() {
        Some(params) => ct.inner.is_conformant(&params.into()),
        None => false,
    }
}

/// Relies on `FheUint8::decrypt` (tfhe's `FheDecrypt`): deterministic, and
/// for a ciphertext conformant with `key`'s parameters it returns the
/// plaintext byte determined by the ciphertext's bytes and the key.
/// Non-conformant ciphertexts are excluded: on those tfhe's decryption may
/// abort.
#[verifier::external_body]
pub(crate) fn fhe_decrypt_u8(ct: &Ciphertext, key: &tfhe::ClientKey) -> (r: u8)
    requires
        compatible(ct_bytes(*ct), *key),
    ensures
        r == decrypted_value(ct_bytes(*ct), *key),
{
    ct.inner.decrypt(key)
}

} // verus!
