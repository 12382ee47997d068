//! The failures that the value types of the vault can report.

use vstd::prelude::*;
use vstd::std_specs::convert::FromSpecImpl;

verus! {

/// What went wrong.
#[derive(Clone, Copy, Debug, PartialEq, Eq, Structural)]
pub enum VaultFailErrorKind {
    /// The parameter at the given position holds a value outside its domain.
    InvalidParam(usize),
    /// Fewer bytes were supplied than the requested kind of secret holds.
    LengthMismatch,
}

/// A failure of one operation. It is local and deterministic: the same input
/// fails the same way again.
#[derive(Clone, Copy, Debug, PartialEq, Eq, Structural)]
pub struct VaultFailError {
    /// What went wrong.
    pub kind: VaultFailErrorKind,
}

impl From<VaultFailErrorKind> for VaultFailError {
    fn from(kind: VaultFailErrorKind) -> (e: VaultFailError) {
        VaultFailError { kind }
    }
}

impl FromSpecImpl<VaultFailErrorKind> for VaultFailError {
    open spec fn obeys_from_spec() -> bool {
        true
    }

    open spec fn from_spec(kind: VaultFailErrorKind) -> VaultFailError {
        VaultFailError { kind }
    }
}

} // verus!
