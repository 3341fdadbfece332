//! An encryption/decryption boundary over a homomorphic cryptosystem: a
//! caller encrypts one plaintext byte under freshly provisioned key material
//! into a portable serialized ciphertext, and recovers the byte from such a
//! ciphertext later.

pub mod backend;
pub mod boundary;

pub use backend::compatible;
pub use backend::ct_bytes;
pub use backend::decrypted_value;
pub use backend::pbs_key;
pub use backend::wf_ciphertext;
pub use backend::Ciphertext;
pub use boundary::decrypt;
pub use boundary::decrypt_spec;
pub use boundary::decrypt_value;
pub use boundary::encrypt;
pub use boundary::encrypt_value;
pub use boundary::provision;
pub use boundary::provision_client_key;
pub use boundary::supports_encryption;
pub use boundary::Configuration;
pub use boundary::FheError;
pub use boundary::KeyPair;

