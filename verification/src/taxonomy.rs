//! The closed enumerations that describe a secret, each with a stable integer
//! code that crosses process boundaries and may be stored.

use vstd::prelude::*;
use crate::error::{VaultFailError, VaultFailErrorKind};

verus! {

/// The kinds of secret key that the vault supports.
#[derive(Copy, Clone, Debug, Hash, PartialEq, Eq, PartialOrd, Ord, Structural)]
pub enum SecretKeyType {
    /// Raw buffer of the given number of bytes
    Buffer(usize),
    /// AES-128 bit key
    Aes128,
    /// AES-256 bit key
    Aes256,
    /// x25519 secret key
    Curve25519,
    /// NIST P-256 (secp256r1, prime256v1) secret key
    P256,
}

/// The error that every decoder of a code returns for a value outside its
/// domain.
pub open spec fn invalid_code() -> VaultFailError {
    VaultFailError { kind: VaultFailErrorKind::InvalidParam(0) }
}

impl SecretKeyType {
    /// The code of a kind. All buffers share one code: the length is no part
    /// of it.
    pub open spec fn code(self) -> nat {
        match self {
            SecretKeyType::Buffer(_) => 0,
            SecretKeyType::Aes128 => 1,
            SecretKeyType::Aes256 => 2,
            SecretKeyType::Curve25519 => 3,
            SecretKeyType::P256 => 4,
        }
    }

    /// The number of bytes that a secret of this kind holds.
    pub open spec fn byte_len(self) -> nat {
        match self {
            SecretKeyType::Buffer(len) => len as nat,
            SecretKeyType::Aes128 => 16,
            SecretKeyType::Aes256 => 32,
            SecretKeyType::Curve25519 => 32,
            SecretKeyType::P256 => 32,
        }
    }

    /// The variant alone: a buffer of any length becomes the buffer of
    /// length zero, every other kind stays as it is.
    pub open spec fn family(self) -> SecretKeyType {
        match self {
            SecretKeyType::Buffer(_) => SecretKeyType::Buffer(0),
            _ => self,
        }
    }

    /// The kind that a code stands for. A buffer comes back with length zero.
    pub open spec fn decode(code: int) -> Result<SecretKeyType, VaultFailError> {
        if code == 0 {
            Ok(SecretKeyType::Buffer(0))
        } else if code == 1 {
            Ok(SecretKeyType::Aes128)
        } else if code == 2 {
            Ok(SecretKeyType::Aes256)
        } else if code == 3 {
            Ok(SecretKeyType::Curve25519)
        } else if code == 4 {
            Ok(SecretKeyType::P256)
        } else {
            Err(invalid_code())
        }
    }

    /// Convert enum to a number
    pub fn to_usize(&self) -> (code: usize)
        ensures
            code == self.code(),
            code <= 4,
    {
        match *self {
            SecretKeyType::Buffer(..) => 0,
            SecretKeyType::Aes128 => 1,
            SecretKeyType::Aes256 => 2,
            SecretKeyType::Curve25519 => 3,
            SecretKeyType::P256 => 4,
        }
    }

    /// Try to convert from a number to the rust enum
    pub fn from_usize(value: usize) -> (r: Result<Self, VaultFailError>)
        ensures
            r == Self::decode(value as int),
            r is Ok <==> value <= 4,
    {
        match value {
            0 => Ok(SecretKeyType::Buffer(0)),
            1 => Ok(SecretKeyType::Aes128),
            2 => Ok(SecretKeyType::Aes256),
            3 => Ok(SecretKeyType::Curve25519),
            4 => Ok(SecretKeyType::P256),
            _ => Err(VaultFailError::from(VaultFailErrorKind::InvalidParam(0))),
        }
    }

    /// The integers 0 to 4 are the codes. No other integer decodes: each is
    /// refused as an invalid parameter.
    pub proof fn decode_domain(code: int)
        ensures
            Self::decode(code) is Ok <==> 0 <= code <= 4,
            !(0 <= code <= 4) ==> Self::decode(code) == Err::<SecretKeyType, VaultFailError>(
                invalid_code(),
            ),
    {
    }

    /// Decoding the code of a kind gives the variant back. The length of a
    /// buffer is no part of the code and comes back as zero.
    pub proof fn decode_code(self)
        ensures
            Self::decode(self.code() as int) == Ok::<SecretKeyType, VaultFailError>(self.family()),
            !(self is Buffer) ==> self.family() == self,
    {
    }

    /// What a code decodes to has that code.
    pub proof fn code_decode(code: int)
        ensures
            Self::decode(code) matches Ok(kind) ==> kind.code() == code,
    {
    }
}

/// Persistence allowed by Secrets
#[derive(Copy, Clone, Debug, Hash, PartialEq, Eq, PartialOrd, Ord, Structural)]
pub enum SecretPersistenceType {
    /// Secret is temporary
    Ephemeral,
    /// Secret is permanent
    Persistent,
}

impl SecretPersistenceType {
    /// The code of a persistence class.
    pub open spec fn code(self) -> nat {
        match self {
            SecretPersistenceType::Ephemeral => 0,
            SecretPersistenceType::Persistent => 1,
        }
    }

    /// The persistence class that a code stands for.
    pub open spec fn decode(code: int) -> Result<SecretPersistenceType, VaultFailError> {
        if code == 0 {
            Ok(SecretPersistenceType::Ephemeral)
        } else if code == 1 {
            Ok(SecretPersistenceType::Persistent)
        } else {
            Err(invalid_code())
        }
    }

    /// Convert enum to a number
    pub fn to_usize(&self) -> (code: usize)
        ensures
            code == self.code(),
            code <= 1,
    {
        match *self {
            SecretPersistenceType::Ephemeral => 0,
            SecretPersistenceType::Persistent => 1,
        }
    }

    /// Try to convert from a number to the rust enum
    pub fn from_usize(value: usize) -> (r: Result<Self, VaultFailError>)
        ensures
            r == Self::decode(value as int),
            r is Ok <==> value <= 1,
    {
        match value {
            0 => Ok(SecretPersistenceType::Ephemeral),
            1 => Ok(SecretPersistenceType::Persistent),
            _ => Err(VaultFailError::from(VaultFailErrorKind::InvalidParam(0))),
        }
    }

    /// The integers 0 and 1 are the codes. No other integer decodes: each is
    /// refused as an invalid parameter.
    pub proof fn decode_domain(code: int)
        ensures
            Self::decode(code) is Ok <==> 0 <= code <= 1,
            !(0 <= code <= 1) ==> Self::decode(code) == Err::<
                SecretPersistenceType,
                VaultFailError,
            >(invalid_code()),
    {
    }

    /// Decoding the code of a persistence class gives the class back.
    pub proof fn decode_code(self)
        ensures
            Self::decode(self.code() as int) == Ok::<SecretPersistenceType, VaultFailError>(self),
    {
    }

    /// What a code decodes to has that code.
    pub proof fn code_decode(code: int)
        ensures
            Self::decode(code) matches Ok(class) ==> class.code() == code,
    {
    }
}

/// Secrets specific purpose
#[derive(Copy, Clone, Debug, Hash, PartialEq, Eq, PartialOrd, Ord, Structural)]
pub enum SecretPurposeType {
    /// Key exchange
    KeyAgreement,
}

impl SecretPurposeType {
    /// The code of a purpose.
    pub open spec fn code(self) -> nat {
        match self {
            SecretPurposeType::KeyAgreement => 0,
        }
    }

    /// The purpose that a code stands for.
    pub open spec fn decode(code: int) -> Result<SecretPurposeType, VaultFailError> {
        if code == 0 {
            Ok(SecretPurposeType::KeyAgreement)
        } else {
            Err(invalid_code())
        }
    }

    /// Convert enum to a number
    pub fn to_usize(&self) -> (code: usize)
        ensures
            code == self.code(),
            code == 0,
    {
        match *self {
            SecretPurposeType::KeyAgreement => 0,
        }
    }

    /// Try to convert from a number to the rust enum
    pub fn from_usize(value: usize) -> (r: Result<Self, VaultFailError>)
        ensures
            r == Self::decode(value as int),
            r is Ok <==> value == 0,
    {
        match value {
            0 => Ok(SecretPurposeType::KeyAgreement),
            _ => Err(VaultFailError::from(VaultFailErrorKind::InvalidParam(0))),
        }
    }

    /// The integer 0 is the one code. No other integer decodes: each is
    /// refused as an invalid parameter, and none is taken for the one purpose
    /// there is.
    pub proof fn decode_domain(code: int)
        ensures
            Self::decode(code) is Ok <==> code == 0,
            code != 0 ==> Self::decode(code) == Err::<SecretPurposeType, VaultFailError>(
                invalid_code(),
            ),
    {
    }

    /// Decoding the code of a purpose gives the purpose back.
    pub proof fn decode_code(self)
        ensures
            Self::decode(self.code() as int) == Ok::<SecretPurposeType, VaultFailError>(self),
    {
    }

    /// What a code decodes to has that code.
    pub proof fn code_decode(code: int)
        ensures
            Self::decode(code) matches Ok(purpose) ==> purpose.code() == code,
    {
    }
}

} // verus!
