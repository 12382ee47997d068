//! The codes of the taxonomy in every fixed width of integer, signed and
//! unsigned. Each conversion goes through `usize` and the one table that
//! `to_usize` and `from_usize` hold, so no width has a mapping of its own. An
//! integer that `usize` cannot hold is outside every table, and is refused as
//! any other unknown code is: it is never cut down to a code that exists.

use vstd::prelude::*;
use vstd::std_specs::convert::{FromSpec, FromSpecImpl, TryFromSpec, TryFromSpecImpl};
use crate::error::{VaultFailError, VaultFailErrorKind};
use crate::taxonomy::{invalid_code, SecretKeyType, SecretPersistenceType, SecretPurposeType};

verus! {

impl From<SecretKeyType> for i8 {
    /// The code of a kind of key, as `i8`.
    fn from(data: SecretKeyType) -> (code: i8) {
        data.to_usize() as i8
    }
}

impl FromSpecImpl<SecretKeyType> for i8 {
    open spec fn obeys_from_spec() -> bool {
        true
    }

    open spec fn from_spec(data: SecretKeyType) -> i8 {
        data.code() as i8
    }
}

impl From<SecretKeyType> for i16 {
    /// The code of a kind of key, as `i16`.
    fn from(data: SecretKeyType) -> (code: i16) {
        data.to_usize() as i16
    }
}

impl FromSpecImpl<SecretKeyType> for i16 {
    open spec fn obeys_from_spec() -> bool {
        true
    }

    open spec fn from_spec(data: SecretKeyType) -> i16 {
        data.code() as i16
    }
}

impl From<SecretKeyType> for i32 {
    /// The code of a kind of key, as `i32`.
    fn from(data: SecretKeyType) -> (code: i32) {
        data.to_usize() as i32
    }
}

impl FromSpecImpl<SecretKeyType> for i32 {
    open spec fn obeys_from_spec() -> bool {
        true
    }

    open spec fn from_spec(data: SecretKeyType) -> i32 {
        data.code() as i32
    }
}

impl From<SecretKeyType> for i64 {
    /// The code of a kind of key, as `i64`.
    fn from(data: SecretKeyType) -> (code: i64) {
        data.to_usize() as i64
    }
}

impl FromSpecImpl<SecretKeyType> for i64 {
    open spec fn obeys_from_spec() -> bool {
        true
    }

    open spec fn from_spec(data: SecretKeyType) -> i64 {
        data.code() as i64
    }
}

impl From<SecretKeyType> for i128 {
    /// The code of a kind of key, as `i128`.
    fn from(data: SecretKeyType) -> (code: i128) {
        data.to_usize() as i128
    }
}

impl FromSpecImpl<SecretKeyType> for i128 {
    open spec fn obeys_from_spec() -> bool {
        true
    }

    open spec fn from_spec(data: SecretKeyType) -> i128 {
        data.code() as i128
    }
}

impl From<SecretKeyType> for u8 {
    /// The code of a kind of key, as `u8`.
    fn from(data: SecretKeyType) -> (code: u8) {
        data.to_usize() as u8
    }
}

impl FromSpecImpl<SecretKeyType> for u8 {
    open spec fn obeys_from_spec() -> bool {
        true
    }

    open spec fn from_spec(data: SecretKeyType) -> u8 {
        data.code() as u8
    }
}

impl From<SecretKeyType> for u16 {
    /// The code of a kind of key, as `u16`.
    fn from(data: SecretKeyType) -> (code: u16) {
        data.to_usize() as u16
    }
}

impl FromSpecImpl<SecretKeyType> for u16 {
    open spec fn obeys_from_spec() -> bool {
        true
    }

    open spec fn from_spec(data: SecretKeyType) -> u16 {
        data.code() as u16
    }
}

impl From<SecretKeyType> for u32 {
    /// The code of a kind of key, as `u32`.
    fn from(data: SecretKeyType) -> (code: u32) {
        data.to_usize() as u32
    }
}

impl FromSpecImpl<SecretKeyType> for u32 {
    open spec fn obeys_from_spec() -> bool {
        true
    }

    open spec fn from_spec(data: SecretKeyType) -> u32 {
        data.code() as u32
    }
}

impl From<SecretKeyType> for u64 {
    /// The code of a kind of key, as `u64`.
    fn from(data: SecretKeyType) -> (code: u64) {
        data.to_usize() as u64
    }
}

impl FromSpecImpl<SecretKeyType> for u64 {
    open spec fn obeys_from_spec() -> bool {
        true
    }

    open spec fn from_spec(data: SecretKeyType) -> u64 {
        data.code() as u64
    }
}

impl From<SecretKeyType> for u128 {
    /// The code of a kind of key, as `u128`.
    fn from(data: SecretKeyType) -> (code: u128) {
        data.to_usize() as u128
    }
}

impl FromSpecImpl<SecretKeyType> for u128 {
    open spec fn obeys_from_spec() -> bool {
        true
    }

    open spec fn from_spec(data: SecretKeyType) -> u128 {
        data.code() as u128
    }
}

impl TryFrom<i8> for SecretKeyType {
    type Error = VaultFailError;

    /// The kind of key that a code of type `i8` stands for.
    fn try_from(data: i8) -> (r: Result<Self, VaultFailError>) {
        match usize::try_from(data) {
            Ok(value) => Self::from_usize(value),
            Err(_) => Err(VaultFailError::from(VaultFailErrorKind::InvalidParam(0))),
        }
    }
}

impl TryFromSpecImpl<i8> for SecretKeyType {
    open spec fn obeys_try_from_spec() -> bool {
        true
    }

    open spec fn try_from_spec(data: i8) -> Result<Self, VaultFailError> {
        Self::decode(data as int)
    }
}

impl TryFrom<i16> for SecretKeyType {
    type Error = VaultFailError;

    /// The kind of key that a code of type `i16` stands for.
    fn try_from(data: i16) -> (r: Result<Self, VaultFailError>) {
        match usize::try_from(data) {
            Ok(value) => Self::from_usize(value),
            Err(_) => Err(VaultFailError::from(VaultFailErrorKind::InvalidParam(0))),
        }
    }
}

impl TryFromSpecImpl<i16> for SecretKeyType {
    open spec fn obeys_try_from_spec() -> bool {
        true
    }

    open spec fn try_from_spec(data: i16) -> Result<Self, VaultFailError> {
        Self::decode(data as int)
    }
}

impl TryFrom<i32> for SecretKeyType {
    type Error = VaultFailError;

    /// The kind of key that a code of type `i32` stands for.
    fn try_from(data: i32) -> (r: Result<Self, VaultFailError>) {
        match usize::try_from(data) {
            Ok(value) => Self::from_usize(value),
            Err(_) => Err(VaultFailError::from(VaultFailErrorKind::InvalidParam(0))),
        }
    }
}

impl TryFromSpecImpl<i32> for SecretKeyType {
    open spec fn obeys_try_from_spec() -> bool {
        true
    }

    open spec fn try_from_spec(data: i32) -> Result<Self, VaultFailError> {
        Self::decode(data as int)
    }
}

impl TryFrom<i64> for SecretKeyType {
    type Error = VaultFailError;

    /// The kind of key that a code of type `i64` stands for.
    fn try_from(data: i64) -> (r: Result<Self, VaultFailError>) {
        match usize::try_from(data) {
            Ok(value) => Self::from_usize(value),
            Err(_) => Err(VaultFailError::from(VaultFailErrorKind::InvalidParam(0))),
        }
    }
}

impl TryFromSpecImpl<i64> for SecretKeyType {
    open spec fn obeys_try_from_spec() -> bool {
        true
    }

    open spec fn try_from_spec(data: i64) -> Result<Self, VaultFailError> {
        Self::decode(data as int)
    }
}

impl TryFrom<i128> for SecretKeyType {
    type Error = VaultFailError;

    /// The kind of key that a code of type `i128` stands for.
    fn try_from(data: i128) -> (r: Result<Self, VaultFailError>) {
        match usize::try_from(data) {
            Ok(value) => Self::from_usize(value),
            Err(_) => Err(VaultFailError::from(VaultFailErrorKind::InvalidParam(0))),
        }
    }
}

impl TryFromSpecImpl<i128> for SecretKeyType {
    open spec fn obeys_try_from_spec() -> bool {
        true
    }

    open spec fn try_from_spec(data: i128) -> Result<Self, VaultFailError> {
        Self::decode(data as int)
    }
}

impl TryFrom<u8> for SecretKeyType {
    type Error = VaultFailError;

    /// The kind of key that a code of type `u8` stands for.
    fn try_from(data: u8) -> (r: Result<Self, VaultFailError>) {
        Self::from_usize(usize::from(data))
    }
}

impl TryFromSpecImpl<u8> for SecretKeyType {
    open spec fn obeys_try_from_spec() -> bool {
        true
    }

    open spec fn try_from_spec(data: u8) -> Result<Self, VaultFailError> {
        Self::decode(data as int)
    }
}

impl TryFrom<u16> for SecretKeyType {
    type Error = VaultFailError;

    /// The kind of key that a code of type `u16` stands for.
    fn try_from(data: u16) -> (r: Result<Self, VaultFailError>) {
        Self::from_usize(usize::from(data))
    }
}

impl TryFromSpecImpl<u16> for SecretKeyType {
    open spec fn obeys_try_from_spec() -> bool {
        true
    }

    open spec fn try_from_spec(data: u16) -> Result<Self, VaultFailError> {
        Self::decode(data as int)
    }
}

impl TryFrom<u32> for SecretKeyType {
    type Error = VaultFailError;

    /// The kind of key that a code of type `u32` stands for.
    fn try_from(data: u32) -> (r: Result<Self, VaultFailError>) {
        match usize::try_from(data) {
            Ok(value) => Self::from_usize(value),
            Err(_) => Err(VaultFailError::from(VaultFailErrorKind::InvalidParam(0))),
        }
    }
}

impl TryFromSpecImpl<u32> for SecretKeyType {
    open spec fn obeys_try_from_spec() -> bool {
        true
    }

    open spec fn try_from_spec(data: u32) -> Result<Self, VaultFailError> {
        Self::decode(data as int)
    }
}

impl TryFrom<u64> for SecretKeyType {
    type Error = VaultFailError;

    /// The kind of key that a code of type `u64` stands for.
    fn try_from(data: u64) -> (r: Result<Self, VaultFailError>) {
        match usize::try_from(data) {
            Ok(value) => Self::from_usize(value),
            Err(_) => Err(VaultFailError::from(VaultFailErrorKind::InvalidParam(0))),
        }
    }
}

impl TryFromSpecImpl<u64> for SecretKeyType {
    open spec fn obeys_try_from_spec() -> bool {
        true
    }

    open spec fn try_from_spec(data: u64) -> Result<Self, VaultFailError> {
        Self::decode(data as int)
    }
}

impl TryFrom<u128> for SecretKeyType {
    type Error = VaultFailError;

    /// The kind of key that a code of type `u128` stands for.
    fn try_from(data: u128) -> (r: Result<Self, VaultFailError>) {
        match usize::try_from(data) {
            Ok(value) => Self::from_usize(value),
            Err(_) => Err(VaultFailError::from(VaultFailErrorKind::InvalidParam(0))),
        }
    }
}

impl TryFromSpecImpl<u128> for SecretKeyType {
    open spec fn obeys_try_from_spec() -> bool {
        true
    }

    open spec fn try_from_spec(data: u128) -> Result<Self, VaultFailError> {
        Self::decode(data as int)
    }
}

/// In every width, the code of a kind of key decodes to its variant.
pub proof fn key_type_round_trip(kind: SecretKeyType)
    ensures
        <SecretKeyType as TryFromSpec<i8>>::try_from_spec(
            <i8 as FromSpec<SecretKeyType>>::from_spec(kind),
        ) == Ok::<SecretKeyType, VaultFailError>(kind.family()),
        <SecretKeyType as TryFromSpec<i16>>::try_from_spec(
            <i16 as FromSpec<SecretKeyType>>::from_spec(kind),
        ) == Ok::<SecretKeyType, VaultFailError>(kind.family()),
        <SecretKeyType as TryFromSpec<i32>>::try_from_spec(
            <i32 as FromSpec<SecretKeyType>>::from_spec(kind),
        ) == Ok::<SecretKeyType, VaultFailError>(kind.family()),
        <SecretKeyType as TryFromSpec<i64>>::try_from_spec(
            <i64 as FromSpec<SecretKeyType>>::from_spec(kind),
        ) == Ok::<SecretKeyType, VaultFailError>(kind.family()),
        <SecretKeyType as TryFromSpec<i128>>::try_from_spec(
            <i128 as FromSpec<SecretKeyType>>::from_spec(kind),
        ) == Ok::<SecretKeyType, VaultFailError>(kind.family()),
        <SecretKeyType as TryFromSpec<u8>>::try_from_spec(
            <u8 as FromSpec<SecretKeyType>>::from_spec(kind),
        ) == Ok::<SecretKeyType, VaultFailError>(kind.family()),
        <SecretKeyType as TryFromSpec<u16>>::try_from_spec(
            <u16 as FromSpec<SecretKeyType>>::from_spec(kind),
        ) == Ok::<SecretKeyType, VaultFailError>(kind.family()),
        <SecretKeyType as TryFromSpec<u32>>::try_from_spec(
            <u32 as FromSpec<SecretKeyType>>::from_spec(kind),
        ) == Ok::<SecretKeyType, VaultFailError>(kind.family()),
        <SecretKeyType as TryFromSpec<u64>>::try_from_spec(
            <u64 as FromSpec<SecretKeyType>>::from_spec(kind),
        ) == Ok::<SecretKeyType, VaultFailError>(kind.family()),
        <SecretKeyType as TryFromSpec<u128>>::try_from_spec(
            <u128 as FromSpec<SecretKeyType>>::from_spec(kind),
        ) == Ok::<SecretKeyType, VaultFailError>(kind.family()),
{
}

/// In every width, the integers 0 to 4 decode, each to a kind of key with that
/// code, and every other integer is refused as an invalid parameter, one that
/// `usize` cannot hold as much as any other.
pub proof fn key_type_domain()
    ensures
        forall|data: i8|
            match #[trigger] <SecretKeyType as TryFromSpec<i8>>::try_from_spec(data) {
                Ok(kind) => 0 <= data <= 4 && kind.code() == data,
                Err(e) => !(0 <= data <= 4) && e == invalid_code(),
            },
        forall|data: i16|
            match #[trigger] <SecretKeyType as TryFromSpec<i16>>::try_from_spec(data) {
                Ok(kind) => 0 <= data <= 4 && kind.code() == data,
                Err(e) => !(0 <= data <= 4) && e == invalid_code(),
            },
        forall|data: i32|
            match #[trigger] <SecretKeyType as TryFromSpec<i32>>::try_from_spec(data) {
                Ok(kind) => 0 <= data <= 4 && kind.code() == data,
                Err(e) => !(0 <= data <= 4) && e == invalid_code(),
            },
        forall|data: i64|
            match #[trigger] <SecretKeyType as TryFromSpec<i64>>::try_from_spec(data) {
                Ok(kind) => 0 <= data <= 4 && kind.code() == data,
                Err(e) => !(0 <= data <= 4) && e == invalid_code(),
            },
        forall|data: i128|
            match #[trigger] <SecretKeyType as TryFromSpec<i128>>::try_from_spec(data) {
                Ok(kind) => 0 <= data <= 4 && kind.code() == data,
                Err(e) => !(0 <= data <= 4) && e == invalid_code(),
            },
        forall|data: u8|
            match #[trigger] <SecretKeyType as TryFromSpec<u8>>::try_from_spec(data) {
                Ok(kind) => 0 <= data <= 4 && kind.code() == data,
                Err(e) => !(0 <= data <= 4) && e == invalid_code(),
            },
        forall|data: u16|
            match #[trigger] <SecretKeyType as TryFromSpec<u16>>::try_from_spec(data) {
                Ok(kind) => 0 <= data <= 4 && kind.code() == data,
                Err(e) => !(0 <= data <= 4) && e == invalid_code(),
            },
        forall|data: u32|
            match #[trigger] <SecretKeyType as TryFromSpec<u32>>::try_from_spec(data) {
                Ok(kind) => 0 <= data <= 4 && kind.code() == data,
                Err(e) => !(0 <= data <= 4) && e == invalid_code(),
            },
        forall|data: u64|
            match #[trigger] <SecretKeyType as TryFromSpec<u64>>::try_from_spec(data) {
                Ok(kind) => 0 <= data <= 4 && kind.code() == data,
                Err(e) => !(0 <= data <= 4) && e == invalid_code(),
            },
        forall|data: u128|
            match #[trigger] <SecretKeyType as TryFromSpec<u128>>::try_from_spec(data) {
                Ok(kind) => 0 <= data <= 4 && kind.code() == data,
                Err(e) => !(0 <= data <= 4) && e == invalid_code(),
            },
{
}

impl From<SecretPersistenceType> for i8 {
    /// The code of a persistence class, as `i8`.
    fn from(data: SecretPersistenceType) -> (code: i8) {
        data.to_usize() as i8
    }
}

impl FromSpecImpl<SecretPersistenceType> for i8 {
    open spec fn obeys_from_spec() -> bool {
        true
    }

    open spec fn from_spec(data: SecretPersistenceType) -> i8 {
        data.code() as i8
    }
}

impl From<SecretPersistenceType> for i16 {
    /// The code of a persistence class, as `i16`.
    fn from(data: SecretPersistenceType) -> (code: i16) {
        data.to_usize() as i16
    }
}

impl FromSpecImpl<SecretPersistenceType> for i16 {
    open spec fn obeys_from_spec() -> bool {
        true
    }

    open spec fn from_spec(data: SecretPersistenceType) -> i16 {
        data.code() as i16
    }
}

impl From<SecretPersistenceType> for i32 {
    /// The code of a persistence class, as `i32`.
    fn from(data: SecretPersistenceType) -> (code: i32) {
        data.to_usize() as i32
    }
}

impl FromSpecImpl<SecretPersistenceType> for i32 {
    open spec fn obeys_from_spec() -> bool {
        true
    }

    open spec fn from_spec(data: SecretPersistenceType) -> i32 {
        data.code() as i32
    }
}

impl From<SecretPersistenceType> for i64 {
    /// The code of a persistence class, as `i64`.
    fn from(data: SecretPersistenceType) -> (code: i64) {
        data.to_usize() as i64
    }
}

impl FromSpecImpl<SecretPersistenceType> for i64 {
    open spec fn obeys_from_spec() -> bool {
        true
    }

    open spec fn from_spec(data: SecretPersistenceType) -> i64 {
        data.code() as i64
    }
}

impl From<SecretPersistenceType> for i128 {
    /// The code of a persistence class, as `i128`.
    fn from(data: SecretPersistenceType) -> (code: i128) {
        data.to_usize() as i128
    }
}

impl FromSpecImpl<SecretPersistenceType> for i128 {
    open spec fn obeys_from_spec() -> bool {
        true
    }

    open spec fn from_spec(data: SecretPersistenceType) -> i128 {
        data.code() as i128
    }
}

impl From<SecretPersistenceType> for u8 {
    /// The code of a persistence class, as `u8`.
    fn from(data: SecretPersistenceType) -> (code: u8) {
        data.to_usize() as u8
    }
}

impl FromSpecImpl<SecretPersistenceType> for u8 {
    open spec fn obeys_from_spec() -> bool {
        true
    }

    open spec fn from_spec(data: SecretPersistenceType) -> u8 {
        data.code() as u8
    }
}

impl From<SecretPersistenceType> for u16 {
    /// The code of a persistence class, as `u16`.
    fn from(data: SecretPersistenceType) -> (code: u16) {
        data.to_usize() as u16
    }
}

impl FromSpecImpl<SecretPersistenceType> for u16 {
    open spec fn obeys_from_spec() -> bool {
        true
    }

    open spec fn from_spec(data: SecretPersistenceType) -> u16 {
        data.code() as u16
    }
}

impl From<SecretPersistenceType> for u32 {
    /// The code of a persistence class, as `u32`.
    fn from(data: SecretPersistenceType) -> (code: u32) {
        data.to_usize() as u32
    }
}

impl FromSpecImpl<SecretPersistenceType> for u32 {
    open spec fn obeys_from_spec() -> bool {
        true
    }

    open spec fn from_spec(data: SecretPersistenceType) -> u32 {
        data.code() as u32
    }
}

impl From<SecretPersistenceType> for u64 {
    /// The code of a persistence class, as `u64`.
    fn from(data: SecretPersistenceType) -> (code: u64) {
        data.to_usize() as u64
    }
}

impl FromSpecImpl<SecretPersistenceType> for u64 {
    open spec fn obeys_from_spec() -> bool {
        true
    }

    open spec fn from_spec(data: SecretPersistenceType) -> u64 {
        data.code() as u64
    }
}

impl From<SecretPersistenceType> for u128 {
    /// The code of a persistence class, as `u128`.
    fn from(data: SecretPersistenceType) -> (code: u128) {
        data.to_usize() as u128
    }
}

impl FromSpecImpl<SecretPersistenceType> for u128 {
    open spec fn obeys_from_spec() -> bool {
        true
    }

    open spec fn from_spec(data: SecretPersistenceType) -> u128 {
        data.code() as u128
    }
}

impl TryFrom<i8> for SecretPersistenceType {
    type Error = VaultFailError;

    /// The persistence class that a code of type `i8` stands for.
    fn try_from(data: i8) -> (r: Result<Self, VaultFailError>) {
        match usize::try_from(data) {
            Ok(value) => Self::from_usize(value),
            Err(_) => Err(VaultFailError::from(VaultFailErrorKind::InvalidParam(0))),
        }
    }
}

impl TryFromSpecImpl<i8> for SecretPersistenceType {
    open spec fn obeys_try_from_spec() -> bool {
        true
    }

    open spec fn try_from_spec(data: i8) -> Result<Self, VaultFailError> {
        Self::decode(data as int)
    }
}

impl TryFrom<i16> for SecretPersistenceType {
    type Error = VaultFailError;

    /// The persistence class that a code of type `i16` stands for.
    fn try_from(data: i16) -> (r: Result<Self, VaultFailError>) {
        match usize::try_from(data) {
            Ok(value) => Self::from_usize(value),
            Err(_) => Err(VaultFailError::from(VaultFailErrorKind::InvalidParam(0))),
        }
    }
}

impl TryFromSpecImpl<i16> for SecretPersistenceType {
    open spec fn obeys_try_from_spec() -> bool {
        true
    }

    open spec fn try_from_spec(data: i16) -> Result<Self, VaultFailError> {
        Self::decode(data as int)
    }
}

impl TryFrom<i32> for SecretPersistenceType {
    type Error = VaultFailError;

    /// The persistence class that a code of type `i32` stands for.
    fn try_from(data: i32) -> (r: Result<Self, VaultFailError>) {
        match usize::try_from(data) {
            Ok(value) => Self::from_usize(value),
            Err(_) => Err(VaultFailError::from(VaultFailErrorKind::InvalidParam(0))),
        }
    }
}

impl TryFromSpecImpl<i32> for SecretPersistenceType {
    open spec fn obeys_try_from_spec() -> bool {
        true
    }

    open spec fn try_from_spec(data: i32) -> Result<Self, VaultFailError> {
        Self::decode(data as int)
    }
}

impl TryFrom<i64> for SecretPersistenceType {
    type Error = VaultFailError;

    /// The persistence class that a code of type `i64` stands for.
    fn try_from(data: i64) -> (r: Result<Self, VaultFailError>) {
        match usize::try_from(data) {
            Ok(value) => Self::from_usize(value),
            Err(_) => Err(VaultFailError::from(VaultFailErrorKind::InvalidParam(0))),
        }
    }
}

impl TryFromSpecImpl<i64> for SecretPersistenceType {
    open spec fn obeys_try_from_spec() -> bool {
        true
    }

    open spec fn try_from_spec(data: i64) -> Result<Self, VaultFailError> {
        Self::decode(data as int)
    }
}

impl TryFrom<i128> for SecretPersistenceType {
    type Error = VaultFailError;

    /// The persistence class that a code of type `i128` stands for.
    fn try_from(data: i128) -> (r: Result<Self, VaultFailError>) {
        match usize::try_from(data) {
            Ok(value) => Self::from_usize(value),
            Err(_) => Err(VaultFailError::from(VaultFailErrorKind::InvalidParam(0))),
        }
    }
}

impl TryFromSpecImpl<i128> for SecretPersistenceType {
    open spec fn obeys_try_from_spec() -> bool {
        true
    }

    open spec fn try_from_spec(data: i128) -> Result<Self, VaultFailError> {
        Self::decode(data as int)
    }
}

impl TryFrom<u8> for SecretPersistenceType {
    type Error = VaultFailError;

    /// The persistence class that a code of type `u8` stands for.
    fn try_from(data: u8) -> (r: Result<Self, VaultFailError>) {
        Self::from_usize(usize::from(data))
    }
}

impl TryFromSpecImpl<u8> for SecretPersistenceType {
    open spec fn obeys_try_from_spec() -> bool {
        true
    }

    open spec fn try_from_spec(data: u8) -> Result<Self, VaultFailError> {
        Self::decode(data as int)
    }
}

impl TryFrom<u16> for SecretPersistenceType {
    type Error = VaultFailError;

    /// The persistence class that a code of type `u16` stands for.
    fn try_from(data: u16) -> (r: Result<Self, VaultFailError>) {
        Self::from_usize(usize::from(data))
    }
}

impl TryFromSpecImpl<u16> for SecretPersistenceType {
    open spec fn obeys_try_from_spec() -> bool {
        true
    }

    open spec fn try_from_spec(data: u16) -> Result<Self, VaultFailError> {
        Self::decode(data as int)
    }
}

impl TryFrom<u32> for SecretPersistenceType {
    type Error = VaultFailError;

    /// The persistence class that a code of type `u32` stands for.
    fn try_from(data: u32) -> (r: Result<Self, VaultFailError>) {
        match usize::try_from(data) {
            Ok(value) => Self::from_usize(value),
            Err(_) => Err(VaultFailError::from(VaultFailErrorKind::InvalidParam(0))),
        }
    }
}

impl TryFromSpecImpl<u32> for SecretPersistenceType {
    open spec fn obeys_try_from_spec() -> bool {
        true
    }

    open spec fn try_from_spec(data: u32) -> Result<Self, VaultFailError> {
        Self::decode(data as int)
    }
}

impl TryFrom<u64> for SecretPersistenceType {
    type Error = VaultFailError;

    /// The persistence class that a code of type `u64` stands for.
    fn try_from(data: u64) -> (r: Result<Self, VaultFailError>) {
        match usize::try_from(data) {
            Ok(value) => Self::from_usize(value),
            Err(_) => Err(VaultFailError::from(VaultFailErrorKind::InvalidParam(0))),
        }
    }
}

impl TryFromSpecImpl<u64> for SecretPersistenceType {
    open spec fn obeys_try_from_spec() -> bool {
        true
    }

    open spec fn try_from_spec(data: u64) -> Result<Self, VaultFailError> {
        Self::decode(data as int)
    }
}

impl TryFrom<u128> for SecretPersistenceType {
    type Error = VaultFailError;

    /// The persistence class that a code of type `u128` stands for.
    fn try_from(data: u128) -> (r: Result<Self, VaultFailError>) {
        match usize::try_from(data) {
            Ok(value) => Self::from_usize(value),
            Err(_) => Err(VaultFailError::from(VaultFailErrorKind::InvalidParam(0))),
        }
    }
}

impl TryFromSpecImpl<u128> for SecretPersistenceType {
    open spec fn obeys_try_from_spec() -> bool {
        true
    }

    open spec fn try_from_spec(data: u128) -> Result<Self, VaultFailError> {
        Self::decode(data as int)
    }
}

/// In every width, the code of a persistence class decodes to the class.
pub proof fn persistence_round_trip(class: SecretPersistenceType)
    ensures
        <SecretPersistenceType as TryFromSpec<i8>>::try_from_spec(
            <i8 as FromSpec<SecretPersistenceType>>::from_spec(class),
        ) == Ok::<SecretPersistenceType, VaultFailError>(class),
        <SecretPersistenceType as TryFromSpec<i16>>::try_from_spec(
            <i16 as FromSpec<SecretPersistenceType>>::from_spec(class),
        ) == Ok::<SecretPersistenceType, VaultFailError>(class),
        <SecretPersistenceType as TryFromSpec<i32>>::try_from_spec(
            <i32 as FromSpec<SecretPersistenceType>>::from_spec(class),
        ) == Ok::<SecretPersistenceType, VaultFailError>(class),
        <SecretPersistenceType as TryFromSpec<i64>>::try_from_spec(
            <i64 as FromSpec<SecretPersistenceType>>::from_spec(class),
        ) == Ok::<SecretPersistenceType, VaultFailError>(class),
        <SecretPersistenceType as TryFromSpec<i128>>::try_from_spec(
            <i128 as FromSpec<SecretPersistenceType>>::from_spec(class),
        ) == Ok::<SecretPersistenceType, VaultFailError>(class),
        <SecretPersistenceType as TryFromSpec<u8>>::try_from_spec(
            <u8 as FromSpec<SecretPersistenceType>>::from_spec(class),
        ) == Ok::<SecretPersistenceType, VaultFailError>(class),
        <SecretPersistenceType as TryFromSpec<u16>>::try_from_spec(
            <u16 as FromSpec<SecretPersistenceType>>::from_spec(class),
        ) == Ok::<SecretPersistenceType, VaultFailError>(class),
        <SecretPersistenceType as TryFromSpec<u32>>::try_from_spec(
            <u32 as FromSpec<SecretPersistenceType>>::from_spec(class),
        ) == Ok::<SecretPersistenceType, VaultFailError>(class),
        <SecretPersistenceType as TryFromSpec<u64>>::try_from_spec(
            <u64 as FromSpec<SecretPersistenceType>>::from_spec(class),
        ) == Ok::<SecretPersistenceType, VaultFailError>(class),
        <SecretPersistenceType as TryFromSpec<u128>>::try_from_spec(
            <u128 as FromSpec<SecretPersistenceType>>::from_spec(class),
        ) == Ok::<SecretPersistenceType, VaultFailError>(class),
{
}

/// In every width, the integers 0 and 1 decode, each to a persistence class with that
/// code, and every other integer is refused as an invalid parameter, one that
/// `usize` cannot hold as much as any other.
pub proof fn persistence_domain()
    ensures
        forall|data: i8|
            match #[trigger] <SecretPersistenceType as TryFromSpec<i8>>::try_from_spec(data) {
                Ok(class) => 0 <= data <= 1 && class.code() == data,
                Err(e) => !(0 <= data <= 1) && e == invalid_code(),
            },
        forall|data: i16|
            match #[trigger] <SecretPersistenceType as TryFromSpec<i16>>::try_from_spec(data) {
                Ok(class) => 0 <= data <= 1 && class.code() == data,
                Err(e) => !(0 <= data <= 1) && e == invalid_code(),
            },
        forall|data: i32|
            match #[trigger] <SecretPersistenceType as TryFromSpec<i32>>::try_from_spec(data) {
                Ok(class) => 0 <= data <= 1 && class.code() == data,
                Err(e) => !(0 <= data <= 1) && e == invalid_code(),
            },
        forall|data: i64|
            match #[trigger] <SecretPersistenceType as TryFromSpec<i64>>::try_from_spec(data) {
                Ok(class) => 0 <= data <= 1 && class.code() == data,
                Err(e) => !(0 <= data <= 1) && e == invalid_code(),
            },
        forall|data: i128|
            match #[trigger] <SecretPersistenceType as TryFromSpec<i128>>::try_from_spec(data) {
                Ok(class) => 0 <= data <= 1 && class.code() == data,
                Err(e) => !(0 <= data <= 1) && e == invalid_code(),
            },
        forall|data: u8|
            match #[trigger] <SecretPersistenceType as TryFromSpec<u8>>::try_from_spec(data) {
                Ok(class) => 0 <= data <= 1 && class.code() == data,
                Err(e) => !(0 <= data <= 1) && e == invalid_code(),
            },
        forall|data: u16|
            match #[trigger] <SecretPersistenceType as TryFromSpec<u16>>::try_from_spec(data) {
                Ok(class) => 0 <= data <= 1 && class.code() == data,
                Err(e) => !(0 <= data <= 1) && e == invalid_code(),
            },
        forall|data: u32|
            match #[trigger] <SecretPersistenceType as TryFromSpec<u32>>::try_from_spec(data) {
                Ok(class) => 0 <= data <= 1 && class.code() == data,
                Err(e) => !(0 <= data <= 1) && e == invalid_code(),
            },
        forall|data: u64|
            match #[trigger] <SecretPersistenceType as TryFromSpec<u64>>::try_from_spec(data) {
                Ok(class) => 0 <= data <= 1 && class.code() == data,
                Err(e) => !(0 <= data <= 1) && e == invalid_code(),
            },
        forall|data: u128|
            match #[trigger] <SecretPersistenceType as TryFromSpec<u128>>::try_from_spec(data) {
                Ok(class) => 0 <= data <= 1 && class.code() == data,
                Err(e) => !(0 <= data <= 1) && e == invalid_code(),
            },
{
}

impl From<SecretPurposeType> for i8 {
    /// The code of a purpose, as `i8`.
    fn from(data: SecretPurposeType) -> (code: i8) {
        data.to_usize() as i8
    }
}

impl FromSpecImpl<SecretPurposeType> for i8 {
    open spec fn obeys_from_spec() -> bool {
        true
    }

    open spec fn from_spec(data: SecretPurposeType) -> i8 {
        data.code() as i8
    }
}

impl From<SecretPurposeType> for i16 {
    /// The code of a purpose, as `i16`.
    fn from(data: SecretPurposeType) -> (code: i16) {
        data.to_usize() as i16
    }
}

impl FromSpecImpl<SecretPurposeType> for i16 {
    open spec fn obeys_from_spec() -> bool {
        true
    }

    open spec fn from_spec(data: SecretPurposeType) -> i16 {
        data.code() as i16
    }
}

impl From<SecretPurposeType> for i32 {
    /// The code of a purpose, as `i32`.
    fn from(data: SecretPurposeType) -> (code: i32) {
        data.to_usize() as i32
    }
}

impl FromSpecImpl<SecretPurposeType> for i32 {
    open spec fn obeys_from_spec() -> bool {
        true
    }

    open spec fn from_spec(data: SecretPurposeType) -> i32 {
        data.code() as i32
    }
}

impl From<SecretPurposeType> for i64 {
    /// The code of a purpose, as `i64`.
    fn from(data: SecretPurposeType) -> (code: i64) {
        data.to_usize() as i64
    }
}

impl FromSpecImpl<SecretPurposeType> for i64 {
    open spec fn obeys_from_spec() -> bool {
        true
    }

    open spec fn from_spec(data: SecretPurposeType) -> i64 {
        data.code() as i64
    }
}

impl From<SecretPurposeType> for i128 {
    /// The code of a purpose, as `i128`.
    fn from(data: SecretPurposeType) -> (code: i128) {
        data.to_usize() as i128
    }
}

impl FromSpecImpl<SecretPurposeType> for i128 {
    open spec fn obeys_from_spec() -> bool {
        true
    }

    open spec fn from_spec(data: SecretPurposeType) -> i128 {
        data.code() as i128
    }
}

impl From<SecretPurposeType> for u8 {
    /// The code of a purpose, as `u8`.
    fn from(data: SecretPurposeType) -> (code: u8) {
        data.to_usize() as u8
    }
}

impl FromSpecImpl<SecretPurposeType> for u8 {
    open spec fn obeys_from_spec() -> bool {
        true
    }

    open spec fn from_spec(data: SecretPurposeType) -> u8 {
        data.code() as u8
    }
}

impl From<SecretPurposeType> for u16 {
    /// The code of a purpose, as `u16`.
    fn from(data: SecretPurposeType) -> (code: u16) {
        data.to_usize() as u16
    }
}

impl FromSpecImpl<SecretPurposeType> for u16 {
    open spec fn obeys_from_spec() -> bool {
        true
    }

    open spec fn from_spec(data: SecretPurposeType) -> u16 {
        data.code() as u16
    }
}

impl From<SecretPurposeType> for u32 {
    /// The code of a purpose, as `u32`.
    fn from(data: SecretPurposeType) -> (code: u32) {
        data.to_usize() as u32
    }
}

impl FromSpecImpl<SecretPurposeType> for u32 {
    open spec fn obeys_from_spec() -> bool {
        true
    }

    open spec fn from_spec(data: SecretPurposeType) -> u32 {
        data.code() as u32
    }
}

impl From<SecretPurposeType> for u64 {
    /// The code of a purpose, as `u64`.
    fn from(data: SecretPurposeType) -> (code: u64) {
        data.to_usize() as u64
    }
}

impl FromSpecImpl<SecretPurposeType> for u64 {
    open spec fn obeys_from_spec() -> bool {
        true
    }

    open spec fn from_spec(data: SecretPurposeType) -> u64 {
        data.code() as u64
    }
}

impl From<SecretPurposeType> for u128 {
    /// The code of a purpose, as `u128`.
    fn from(data: SecretPurposeType) -> (code: u128) {
        data.to_usize() as u128
    }
}

impl FromSpecImpl<SecretPurposeType> for u128 {
    open spec fn obeys_from_spec() -> bool {
        true
    }

    open spec fn from_spec(data: SecretPurposeType) -> u128 {
        data.code() as u128
    }
}

impl TryFrom<i8> for SecretPurposeType {
    type Error = VaultFailError;

    /// The purpose that a code of type `i8` stands for.
    fn try_from(data: i8) -> (r: Result<Self, VaultFailError>) {
        match usize::try_from(data) {
            Ok(value) => Self::from_usize(value),
            Err(_) => Err(VaultFailError::from(VaultFailErrorKind::InvalidParam(0))),
        }
    }
}

impl TryFromSpecImpl<i8> for SecretPurposeType {
    open spec fn obeys_try_from_spec() -> bool {
        true
    }

    open spec fn try_from_spec(data: i8) -> Result<Self, VaultFailError> {
        Self::decode(data as int)
    }
}

impl TryFrom<i16> for SecretPurposeType {
    type Error = VaultFailError;

    /// The purpose that a code of type `i16` stands for.
    fn try_from(data: i16) -> (r: Result<Self, VaultFailError>) {
        match usize::try_from(data) {
            Ok(value) => Self::from_usize(value),
            Err(_) => Err(VaultFailError::from(VaultFailErrorKind::InvalidParam(0))),
        }
    }
}

impl TryFromSpecImpl<i16> for SecretPurposeType {
    open spec fn obeys_try_from_spec() -> bool {
        true
    }

    open spec fn try_from_spec(data: i16) -> Result<Self, VaultFailError> {
        Self::decode(data as int)
    }
}

impl TryFrom<i32> for SecretPurposeType {
    type Error = VaultFailError;

    /// The purpose that a code of type `i32` stands for.
    fn try_from(data: i32) -> (r: Result<Self, VaultFailError>) {
        match usize::try_from(data) {
            Ok(value) => Self::from_usize(value),
            Err(_) => Err(VaultFailError::from(VaultFailErrorKind::InvalidParam(0))),
        }
    }
}

impl TryFromSpecImpl<i32> for SecretPurposeType {
    open spec fn obeys_try_from_spec() -> bool {
        true
    }

    open spec fn try_from_spec(data: i32) -> Result<Self, VaultFailError> {
        Self::decode(data as int)
    }
}

impl TryFrom<i64> for SecretPurposeType {
    type Error = VaultFailError;

    /// The purpose that a code of type `i64` stands for.
    fn try_from(data: i64) -> (r: Result<Self, VaultFailError>) {
        match usize::try_from(data) {
            Ok(value) => Self::from_usize(value),
            Err(_) => Err(VaultFailError::from(VaultFailErrorKind::InvalidParam(0))),
        }
    }
}

impl TryFromSpecImpl<i64> for SecretPurposeType {
    open spec fn obeys_try_from_spec() -> bool {
        true
    }

    open spec fn try_from_spec(data: i64) -> Result<Self, VaultFailError> {
        Self::decode(data as int)
    }
}

impl TryFrom<i128> for SecretPurposeType {
    type Error = VaultFailError;

    /// The purpose that a code of type `i128` stands for.
    fn try_from(data: i128) -> (r: Result<Self, VaultFailError>) {
        match usize::try_from(data) {
            Ok(value) => Self::from_usize(value),
            Err(_) => Err(VaultFailError::from(VaultFailErrorKind::InvalidParam(0))),
        }
    }
}

impl TryFromSpecImpl<i128> for SecretPurposeType {
    open spec fn obeys_try_from_spec() -> bool {
        true
    }

    open spec fn try_from_spec(data: i128) -> Result<Self, VaultFailError> {
        Self::decode(data as int)
    }
}

impl TryFrom<u8> for SecretPurposeType {
    type Error = VaultFailError;

    /// The purpose that a code of type `u8` stands for.
    fn try_from(data: u8) -> (r: Result<Self, VaultFailError>) {
        Self::from_usize(usize::from(data))
    }
}

impl TryFromSpecImpl<u8> for SecretPurposeType {
    open spec fn obeys_try_from_spec() -> bool {
        true
    }

    open spec fn try_from_spec(data: u8) -> Result<Self, VaultFailError> {
        Self::decode(data as int)
    }
}

impl TryFrom<u16> for SecretPurposeType {
    type Error = VaultFailError;

    /// The purpose that a code of type `u16` stands for.
    fn try_from(data: u16) -> (r: Result<Self, VaultFailError>) {
        Self::from_usize(usize::from(data))
    }
}

impl TryFromSpecImpl<u16> for SecretPurposeType {
    open spec fn obeys_try_from_spec() -> bool {
        true
    }

    open spec fn try_from_spec(data: u16) -> Result<Self, VaultFailError> {
        Self::decode(data as int)
    }
}

impl TryFrom<u32> for SecretPurposeType {
    type Error = VaultFailError;

    /// The purpose that a code of type `u32` stands for.
    fn try_from(data: u32) -> (r: Result<Self, VaultFailError>) {
        match usize::try_from(data) {
            Ok(value) => Self::from_usize(value),
            Err(_) => Err(VaultFailError::from(VaultFailErrorKind::InvalidParam(0))),
        }
    }
}

impl TryFromSpecImpl<u32> for SecretPurposeType {
    open spec fn obeys_try_from_spec() -> bool {
        true
    }

    open spec fn try_from_spec(data: u32) -> Result<Self, VaultFailError> {
        Self::decode(data as int)
    }
}

impl TryFrom<u64> for SecretPurposeType {
    type Error = VaultFailError;

    /// The purpose that a code of type `u64` stands for.
    fn try_from(data: u64) -> (r: Result<Self, VaultFailError>) {
        match usize::try_from(data) {
            Ok(value) => Self::from_usize(value),
            Err(_) => Err(VaultFailError::from(VaultFailErrorKind::InvalidParam(0))),
        }
    }
}

impl TryFromSpecImpl<u64> for SecretPurposeType {
    open spec fn obeys_try_from_spec() -> bool {
        true
    }

    open spec fn try_from_spec(data: u64) -> Result<Self, VaultFailError> {
        Self::decode(data as int)
    }
}

impl TryFrom<u128> for SecretPurposeType {
    type Error = VaultFailError;

    /// The purpose that a code of type `u128` stands for.
    fn try_from(data: u128) -> (r: Result<Self, VaultFailError>) {
        match usize::try_from(data) {
            Ok(value) => Self::from_usize(value),
            Err(_) => Err(VaultFailError::from(VaultFailErrorKind::InvalidParam(0))),
        }
    }
}

impl TryFromSpecImpl<u128> for SecretPurposeType {
    open spec fn obeys_try_from_spec() -> bool {
        true
    }

    open spec fn try_from_spec(data: u128) -> Result<Self, VaultFailError> {
        Self::decode(data as int)
    }
}

/// In every width, the code of a purpose decodes to the purpose.
pub proof fn purpose_round_trip(purpose: SecretPurposeType)
    ensures
        <SecretPurposeType as TryFromSpec<i8>>::try_from_spec(
            <i8 as FromSpec<SecretPurposeType>>::from_spec(purpose),
        ) == Ok::<SecretPurposeType, VaultFailError>(purpose),
        <SecretPurposeType as TryFromSpec<i16>>::try_from_spec(
            <i16 as FromSpec<SecretPurposeType>>::from_spec(purpose),
        ) == Ok::<SecretPurposeType, VaultFailError>(purpose),
        <SecretPurposeType as TryFromSpec<i32>>::try_from_spec(
            <i32 as FromSpec<SecretPurposeType>>::from_spec(purpose),
        ) == Ok::<SecretPurposeType, VaultFailError>(purpose),
        <SecretPurposeType as TryFromSpec<i64>>::try_from_spec(
            <i64 as FromSpec<SecretPurposeType>>::from_spec(purpose),
        ) == Ok::<SecretPurposeType, VaultFailError>(purpose),
        <SecretPurposeType as TryFromSpec<i128>>::try_from_spec(
            <i128 as FromSpec<SecretPurposeType>>::from_spec(purpose),
        ) == Ok::<SecretPurposeType, VaultFailError>(purpose),
        <SecretPurposeType as TryFromSpec<u8>>::try_from_spec(
            <u8 as FromSpec<SecretPurposeType>>::from_spec(purpose),
        ) == Ok::<SecretPurposeType, VaultFailError>(purpose),
        <SecretPurposeType as TryFromSpec<u16>>::try_from_spec(
            <u16 as FromSpec<SecretPurposeType>>::from_spec(purpose),
        ) == Ok::<SecretPurposeType, VaultFailError>(purpose),
        <SecretPurposeType as TryFromSpec<u32>>::try_from_spec(
            <u32 as FromSpec<SecretPurposeType>>::from_spec(purpose),
        ) == Ok::<SecretPurposeType, VaultFailError>(purpose),
        <SecretPurposeType as TryFromSpec<u64>>::try_from_spec(
            <u64 as FromSpec<SecretPurposeType>>::from_spec(purpose),
        ) == Ok::<SecretPurposeType, VaultFailError>(purpose),
        <SecretPurposeType as TryFromSpec<u128>>::try_from_spec(
            <u128 as FromSpec<SecretPurposeType>>::from_spec(purpose),
        ) == Ok::<SecretPurposeType, VaultFailError>(purpose),
{
}

/// In every width, the integers 0 decode, each to a purpose with that
/// code, and every other integer is refused as an invalid parameter, one that
/// `usize` cannot hold as much as any other.
pub proof fn purpose_domain()
    ensures
        forall|data: i8|
            match #[trigger] <SecretPurposeType as TryFromSpec<i8>>::try_from_spec(data) {
                Ok(purpose) => data == 0 && purpose.code() == data,
                Err(e) => !(data == 0) && e == invalid_code(),
            },
        forall|data: i16|
            match #[trigger] <SecretPurposeType as TryFromSpec<i16>>::try_from_spec(data) {
                Ok(purpose) => data == 0 && purpose.code() == data,
                Err(e) => !(data == 0) && e == invalid_code(),
            },
        forall|data: i32|
            match #[trigger] <SecretPurposeType as TryFromSpec<i32>>::try_from_spec(data) {
                Ok(purpose) => data == 0 && purpose.code() == data,
                Err(e) => !(data == 0) && e == invalid_code(),
            },
        forall|data: i64|
            match #[trigger] <SecretPurposeType as TryFromSpec<i64>>::try_from_spec(data) {
                Ok(purpose) => data == 0 && purpose.code() == data,
                Err(e) => !(data == 0) && e == invalid_code(),
            },
        forall|data: i128|
            match #[trigger] <SecretPurposeType as TryFromSpec<i128>>::try_from_spec(data) {
                Ok(purpose) => data == 0 && purpose.code() == data,
                Err(e) => !(data == 0) && e == invalid_code(),
            },
        forall|data: u8|
            match #[trigger] <SecretPurposeType as TryFromSpec<u8>>::try_from_spec(data) {
                Ok(purpose) => data == 0 && purpose.code() == data,
                Err(e) => !(data == 0) && e == invalid_code(),
            },
        forall|data: u16|
            match #[trigger] <SecretPurposeType as TryFromSpec<u16>>::try_from_spec(data) {
                Ok(purpose) => data == 0 && purpose.code() == data,
                Err(e) => !(data == 0) && e == invalid_code(),
            },
        forall|data: u32|
            match #[trigger] <SecretPurposeType as TryFromSpec<u32>>::try_from_spec(data) {
                Ok(purpose) => data == 0 && purpose.code() == data,
                Err(e) => !(data == 0) && e == invalid_code(),
            },
        forall|data: u64|
            match #[trigger] <SecretPurposeType as TryFromSpec<u64>>::try_from_spec(data) {
                Ok(purpose) => data == 0 && purpose.code() == data,
                Err(e) => !(data == 0) && e == invalid_code(),
            },
        forall|data: u128|
            match #[trigger] <SecretPurposeType as TryFromSpec<u128>>::try_from_spec(data) {
                Ok(purpose) => data == 0 && purpose.code() == data,
                Err(e) => !(data == 0) && e == invalid_code(),
            },
{
}

} // verus!
