//! Secret key material: the bytes, equality in constant time, and clearing.
//!
//! A secret is owned by one holder at a time. It is cleared when it is
//! dropped, and `zeroize` clears it before that; a clone is a secret of its
//! own and is cleared in its turn.

use vstd::prelude::*;
use vstd::slice::{slice_subrange, slice_to_vec};
use vstd::std_specs::cmp::{PartialEqSpec, PartialEqSpecImpl};
use crate::error::{VaultFailError, VaultFailErrorKind};
use crate::primitives::{ct_eq_bytes, zeroize_array, zeroize_vec};
use crate::taxonomy::SecretKeyType;

verus! {

/// Represents specific secrets employable by the vault
#[derive(Debug)]
pub enum SecretKey {
    /// Raw buffer of bytes
    Buffer(Vec<u8>),
    /// AES-128 bit key
    Aes128([u8; 16]),
    /// AES-256 bit key
    Aes256([u8; 32]),
    /// x25519 secret key
    Curve25519([u8; 32]),
    /// NIST P-256 (secp256r1, prime256v1) secret key
    P256([u8; 32]),
}

/// What a secret is, apart from where it is stored: its kind and its bytes.
pub struct SecretKeyView {
    /// The kind; for a buffer, with the number of bytes it holds.
    pub xtype: SecretKeyType,
    /// The secret bytes.
    pub bytes: Seq<u8>,
}

impl SecretKeyView {
    /// Whether every byte is zero.
    pub open spec fn is_zeroized(self) -> bool {
        forall|i: int| 0 <= i < self.bytes.len() ==> self.bytes[i] == 0u8
    }

    /// What clearing leaves of a secret: the same variant, with every byte
    /// zero. A buffer gives its bytes up and is left empty.
    pub open spec fn zeroized(self) -> SecretKeyView {
        match self.xtype {
            SecretKeyType::Buffer(_) => SecretKeyView {
                xtype: SecretKeyType::Buffer(0),
                bytes: Seq::empty(),
            },
            _ => SecretKeyView {
                xtype: self.xtype,
                bytes: Seq::new(self.bytes.len(), |i: int| 0u8),
            },
        }
    }

    /// Clearing leaves zero bytes only.
    pub proof fn zeroized_is_zeroized(self)
        ensures
            self.zeroized().is_zeroized(),
    {
    }

    /// Clearing keeps the variant, and the length of every variant but the
    /// buffer.
    pub proof fn zeroized_keeps_variant(self)
        ensures
            self.zeroized().xtype == self.xtype.family(),
            !(self.xtype is Buffer) ==> self.zeroized().bytes.len() == self.bytes.len(),
    {
    }

    /// Clearing twice is clearing once.
    pub proof fn zeroized_twice(self)
        ensures
            self.zeroized().zeroized() == self.zeroized(),
    {
        assert(self.zeroized().zeroized().bytes =~= self.zeroized().bytes);
    }
}

impl View for SecretKey {
    type V = SecretKeyView;

    open spec fn view(&self) -> SecretKeyView {
        match *self {
            SecretKey::Buffer(a) => SecretKeyView {
                xtype: SecretKeyType::Buffer(a.len()),
                bytes: a@,
            },
            SecretKey::Aes128(a) => SecretKeyView { xtype: SecretKeyType::Aes128, bytes: a@ },
            SecretKey::Aes256(a) => SecretKeyView { xtype: SecretKeyType::Aes256, bytes: a@ },
            SecretKey::Curve25519(a) => SecretKeyView {
                xtype: SecretKeyType::Curve25519,
                bytes: a@,
            },
            SecretKey::P256(a) => SecretKeyView { xtype: SecretKeyType::P256, bytes: a@ },
        }
    }
}

/// The error of a construction that was given too few bytes.
pub open spec fn length_mismatch() -> VaultFailError {
    VaultFailError { kind: VaultFailErrorKind::LengthMismatch }
}

/// Fills `out` with the first bytes of `data`.
fn copy_prefix<const N: usize>(out: &mut [u8; N], data: &[u8])
    requires
        N <= data@.len(),
    ensures
        final(out)@ == data@.take(N as int),
{
    let mut i: usize = 0;
    while i < N
        invariant
            i <= N <= data@.len(),
            forall|j: int| 0 <= j < i ==> out@[j] == data@[j],
        decreases N - i,
    {
        out[i] = data[i];
        i += 1;
    }
}

impl SecretKey {
    /// What `new` makes of `data`: a secret of the kind asked for that holds
    /// the first bytes of `data`, as many as the kind holds, or nothing where
    /// `data` has fewer.
    pub open spec fn spec_new(data: Seq<u8>, xtype: SecretKeyType) -> Result<
        SecretKeyView,
        VaultFailError,
    > {
        if xtype.byte_len() <= data.len() {
            Ok(SecretKeyView { xtype, bytes: data.take(xtype.byte_len() as int) })
        } else {
            Err(length_mismatch())
        }
    }

    /// Create a new Secret key using `data` and of the correct type. Bytes of
    /// `data` beyond those that the type holds are left out. With fewer bytes
    /// than the type holds there is no secret to build, and the call fails.
    pub fn new(data: &[u8], xtype: SecretKeyType) -> (r: Result<Self, VaultFailError>)
        ensures
            r is Ok <==> xtype.byte_len() <= data@.len(),
            match r {
                Ok(key) => Self::spec_new(data@, xtype) == Ok::<SecretKeyView, VaultFailError>(key@),
                Err(e) => Self::spec_new(data@, xtype) == Err::<SecretKeyView, VaultFailError>(e),
            },
    {
        match xtype {
            SecretKeyType::Buffer(l) => {
                if data.len() < l {
                    return Err(VaultFailError::from(VaultFailErrorKind::LengthMismatch));
                }
                Ok(SecretKey::Buffer(slice_to_vec(slice_subrange(data, 0, l))))
            },
            SecretKeyType::Aes128 => {
                if data.len() < 16 {
                    return Err(VaultFailError::from(VaultFailErrorKind::LengthMismatch));
                }
                let mut a = [0u8;16];
                copy_prefix(&mut a, data);
                Ok(SecretKey::Aes128(a))
            },
            SecretKeyType::Aes256 => {
                if data.len() < 32 {
                    return Err(VaultFailError::from(VaultFailErrorKind::LengthMismatch));
                }
                let mut a = [0u8;32];
                copy_prefix(&mut a, data);
                Ok(SecretKey::Aes256(a))
            },
            SecretKeyType::P256 => {
                if data.len() < 32 {
                    return Err(VaultFailError::from(VaultFailErrorKind::LengthMismatch));
                }
                let mut a = [0u8;32];
                copy_prefix(&mut a, data);
                Ok(SecretKey::P256(a))
            },
            SecretKeyType::Curve25519 => {
                if data.len() < 32 {
                    return Err(VaultFailError::from(VaultFailErrorKind::LengthMismatch));
                }
                let mut a = [0u8;32];
                copy_prefix(&mut a, data);
                Ok(SecretKey::Curve25519(a))
            },
        }
    }

    /// Overwrites the secret bytes with zero, by writes that the compiler
    /// does not remove. Clearing a cleared secret changes nothing.
    pub fn zeroize(&mut self)
        ensures
            final(self)@ == old(self)@.zeroized(),
            final(self)@.is_zeroized(),
        opens_invariants none
        no_unwind
    {
        match self {
            SecretKey::Buffer(a) => zeroize_vec(a),
            SecretKey::Aes128(a) => zeroize_array(a),
            SecretKey::Aes256(a) => zeroize_array(a),
            SecretKey::Curve25519(a) => zeroize_array(a),
            SecretKey::P256(a) => zeroize_array(a),
        }
    }

    /// A secret holds as many bytes as its kind says.
    pub proof fn holds_byte_len(&self)
        ensures
            self@.bytes.len() == self@.xtype.byte_len(),
    {
    }

    /// With exactly as many bytes as the kind holds, `new` succeeds, and the
    /// secret holds those bytes unchanged.
    pub proof fn new_keeps_exact_input(data: Seq<u8>, xtype: SecretKeyType)
        requires
            data.len() == xtype.byte_len(),
        ensures
            Self::spec_new(data, xtype) == Ok::<SecretKeyView, VaultFailError>(
                SecretKeyView { xtype, bytes: data },
            ),
    {
        assert(data.take(xtype.byte_len() as int) =~= data);
    }

    /// With fewer bytes than the kind holds, `new` fails with a length
    /// mismatch.
    pub proof fn new_refuses_short_input(data: Seq<u8>, xtype: SecretKeyType)
        requires
            data.len() < xtype.byte_len(),
        ensures
            Self::spec_new(data, xtype) == Err::<SecretKeyView, VaultFailError>(length_mismatch()),
    {
    }

    /// Two secrets are equal where they are of one variant and hold the same
    /// bytes. They are unequal where the variants differ, whatever the bytes,
    /// and where any one byte differs, the last as much as the first.
    pub proof fn eq_laws(a: SecretKey, b: SecretKey)
        ensures
            a@.xtype == b@.xtype && a@.bytes == b@.bytes ==> PartialEqSpec::eq_spec(&a, &b),
            a@.xtype.code() != b@.xtype.code() ==> !PartialEqSpec::eq_spec(&a, &b),
            a@.bytes.len() != b@.bytes.len() ==> !PartialEqSpec::eq_spec(&a, &b),
            (exists|i: int| 0 <= i < a@.bytes.len() && a@.bytes[i] != b@.bytes[i])
                ==> !PartialEqSpec::eq_spec(&a, &b),
            PartialEqSpec::eq_spec(&a, &a),
            PartialEqSpec::eq_spec(&a, &b) == PartialEqSpec::eq_spec(&b, &a),
    {
    }
}

impl AsRef<[u8]> for SecretKey {
    /// The secret bytes.
    fn as_ref(&self) -> (bytes: &[u8])
        ensures
            bytes@ == self@.bytes,
    {
        match self {
            SecretKey::Buffer(a) => a.as_slice(),
            SecretKey::Aes128(a) => a.as_slice(),
            SecretKey::Aes256(a) => a.as_slice(),
            SecretKey::Curve25519(a) => a.as_slice(),
            SecretKey::P256(a) => a.as_slice(),
        }
    }
}

impl Clone for SecretKey {
    /// A second secret of the same kind with the same bytes.
    fn clone(&self) -> (copy: Self)
        ensures
            copy@ == self@,
    {
        match self {
            SecretKey::Buffer(a) => SecretKey::Buffer(a.clone()),
            SecretKey::Aes128(a) => SecretKey::Aes128(*a),
            SecretKey::Aes256(a) => SecretKey::Aes256(*a),
            SecretKey::Curve25519(a) => SecretKey::Curve25519(*a),
            SecretKey::P256(a) => SecretKey::P256(*a),
        }
    }
}

impl PartialEq for SecretKey {
    /// Compares in constant time within a variant. Secrets of different
    /// variants are never equal, whatever bytes they hold.
    fn eq(&self, other: &Self) -> (r: bool) {
        match (self, other) {
            (SecretKey::Buffer(a), SecretKey::Buffer(b)) => {
                ct_eq_bytes(a.as_slice(), b.as_slice()) == 1u8
            },
            (SecretKey::Aes128(a), SecretKey::Aes128(b)) => {
                ct_eq_bytes(a.as_slice(), b.as_slice()) == 1u8
            },
            (SecretKey::Aes256(a), SecretKey::Aes256(b)) => {
                ct_eq_bytes(a.as_slice(), b.as_slice()) == 1u8
            },
            (SecretKey::Curve25519(a), SecretKey::Curve25519(b)) => {
                ct_eq_bytes(a.as_slice(), b.as_slice()) == 1u8
            },
            (SecretKey::P256(a), SecretKey::P256(b)) => {
                ct_eq_bytes(a.as_slice(), b.as_slice()) == 1u8
            },
            (_, _) => false,
        }
    }
}

impl PartialEqSpecImpl for SecretKey {
    open spec fn obeys_eq_spec() -> bool {
        true
    }

    open spec fn eq_spec(&self, other: &Self) -> bool {
        self@ == other@
    }
}

impl Eq for SecretKey {}

impl Drop for SecretKey {
    /// Clears the secret before its storage is released.
    fn drop(&mut self)
        ensures
            final(self)@ == old(self)@.zeroized(),
        opens_invariants none
        no_unwind
    {
        self.zeroize();
    }
}

} // verus!
