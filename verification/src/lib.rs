//! Value types shared by every backend of a vault of cryptographic secrets:
//! what kind of secret is asked for, where its bytes live, and the bytes
//! themselves, with constant-time equality and explicit clearing.

pub mod attributes;
pub mod codes;
pub mod context;
pub mod error;
pub mod primitives;
pub mod public;
pub mod secret;
pub mod taxonomy;

pub use attributes::SecretKeyAttributes;
pub use context::{OsKeyRing, OsxContext, SecretKeyContext};
pub use error::{VaultFailError, VaultFailErrorKind};
pub use public::PublicKey;
pub use secret::{SecretKey, SecretKeyView};
pub use taxonomy::{SecretKeyType, SecretPersistenceType, SecretPurposeType};
