//! Post-quantum hybrid encryption core: key-encapsulation-based direct
//! encryption, symmetric group-broadcast encryption, and the byte-exact
//! binary envelope format both rely on for tamper-evident framing.

pub mod aead;
pub mod context;
pub mod encodings;
pub mod envelope;
pub mod error;
pub mod keys;
pub mod profile;
pub mod records;
pub mod wire;

pub use encodings::Base64;
pub use error::Error;
pub use error::UserError;
pub use keys::SymmetricKey;
