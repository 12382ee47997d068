//! Where the bytes of a secret live. A context names a place; it never holds
//! the secret.

use vstd::prelude::*;

verus! {

/// A context that uses secret keys e.g. TEE, HSM, SEP.
/// This list is not meant to be exhaustive, just the ones the vault supports.
#[derive(Clone, Copy, Debug, Hash, PartialEq, Eq, PartialOrd, Ord, Structural)]
pub enum SecretKeyContext {
    /// Key is backed by RAM
    Memory(usize),
    /// Key is backed by a file
    File,
    /// Key is backed Azure KeyVault
    AzureKeyVault,
    /// Key is backed an OS keyring like Windows Credential Vault, Gnome Keyring, KWallet, or
    /// Security Framework
    KeyRing {
        /// The id of the secret
        id: usize,
        /// The type of represented by `id`
        os_type: OsKeyRing,
    },
}

/// The type of OS represented by the Keyring
#[derive(Clone, Copy, Debug, Hash, PartialEq, Eq, PartialOrd, Ord, Structural)]
pub enum OsKeyRing {
    /// The keyring tied to a Linux operating system
    Linux,
    /// The keyring tied to the Mac OS X operating system
    Osx(OsxContext),
    /// The credentials vault tied to the Windows operating system
    Windows,
}

/// Locations that can be used by the OSX system
#[derive(Clone, Copy, Debug, Hash, PartialEq, Eq, PartialOrd, Ord, Structural)]
pub enum OsxContext {
    /// Secrets stored ephemerally in memory
    Memory,
    /// Secrets stored in the OSX keychain
    Keychain,
    /// Secrets stored in the Secure Enclave Processor
    Enclave,
}

impl SecretKeyContext {
    /// The handle that stands for a context where only an integer can cross.
    /// It keeps the slot of a key in memory and nothing of any other context.
    pub open spec fn handle(self) -> nat {
        match self {
            SecretKeyContext::Memory(id) => id as nat,
            _ => 0,
        }
    }

    /// The handle tells a slot in memory by its number and every other
    /// context by zero. So all contexts outside memory share one handle, and
    /// share it with slot zero.
    pub proof fn handle_is_lossy(self)
        ensures
            self matches SecretKeyContext::Memory(id) ==> self.handle() == id,
            !(self is Memory) ==> self.handle() == 0
                && self.handle() == SecretKeyContext::Memory(0).handle(),
    {
    }

    /// The handle that says "not a slot in memory". It is also the handle of
    /// slot zero: the two cannot be told apart.
    pub fn ffi_default() -> (handle: u64)
        ensures
            handle == 0,
    {
        0
    }

    /// Converts the secret key context to an id that can be passed across the
    /// FFI boundary. This loses information: a key in memory gives its slot,
    /// every other context gives the same handle as `ffi_default`.
    pub fn into_ffi_value(self) -> (handle: u64)
        ensures
            handle == self.handle(),
    {
        match self {
            SecretKeyContext::Memory(id) => id as u64,
            _ => Self::ffi_default(),
        }
    }
}

} // verus!
