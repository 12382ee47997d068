//! What a caller asks of a vault when a secret is made or brought in.

use vstd::prelude::*;
use crate::taxonomy::{SecretKeyType, SecretPersistenceType, SecretPurposeType};

verus! {

/// Attributes for a specific vault secret. Any combination can be written
/// down: whether a backend can serve it is for the backend to say.
#[derive(Copy, Clone, Debug, Hash, PartialEq, Eq, PartialOrd, Ord, Structural)]
pub struct SecretKeyAttributes {
    /// The type of key
    pub xtype: SecretKeyType,
    /// How the key is persisted
    pub persistence: SecretPersistenceType,
    /// The purpose of the secret key
    pub purpose: SecretPurposeType,
}

} // verus!
