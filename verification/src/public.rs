//! Public keys: bytes without a confidentiality requirement, with a readable
//! rendering.

use vstd::prelude::*;
use vstd::std_specs::cmp::{PartialEqSpec, PartialEqSpecImpl};
use vstd::string::StringExecFns;
use crate::primitives::{ct_eq_bytes, hex_encode, lower_hex};

verus! {

/// The supported public keys
#[derive(Copy, Clone)]
pub enum PublicKey {
    /// x25519 Public Key
    Curve25519([u8; 32]),
    /// NIST P-256 (secp256r1, prime256v1) uncompressed public key
    P256([u8; 65]),
}

impl View for PublicKey {
    type V = Seq<u8>;

    /// The bytes of the key.
    open spec fn view(&self) -> Seq<u8> {
        match *self {
            PublicKey::Curve25519(a) => a@,
            PublicKey::P256(a) => a@,
        }
    }
}

impl PublicKey {
    /// The text that stands for a key: the variant's name, then the bytes
    /// in lower-case hexadecimal between braces.
    pub open spec fn rendering(&self) -> Seq<char> {
        match *self {
            PublicKey::Curve25519(a) => "PublicKey::Curve25519 { "@ + lower_hex(a@) + " }"@,
            PublicKey::P256(a) => "PublicKey::P256 { "@ + lower_hex(a@) + " }"@,
        }
    }

    /// The key as text, for display and for logs.
    pub fn to_string(&self) -> (text: String)
        ensures
            text@ == self.rendering(),
    {
        match self {
            PublicKey::Curve25519(a) => {
                let mut text = String::from_str("PublicKey::Curve25519 { ");
                let digits = hex_encode(a.as_slice());
                text.append(digits.as_str());
                text.append(" }");
                text
            },
            PublicKey::P256(a) => {
                let mut text = String::from_str("PublicKey::P256 { ");
                let digits = hex_encode(a.as_slice());
                text.append(digits.as_str());
                text.append(" }");
                text
            },
        }
    }

    /// The rendering is the variant's name, an opening brace, two digits for
    /// each byte and a closing brace, set apart by single spaces: 90
    /// characters for a Curve25519 key, 150 for a P-256 key.
    pub proof fn rendering_shape(&self)
        ensures
            self matches PublicKey::Curve25519(a) ==> self.rendering().len() == 90
                && self.rendering().subrange(0, 24) == "PublicKey::Curve25519 { "@
                && self.rendering().subrange(24, 88) == lower_hex(a@)
                && self.rendering().subrange(88, 90) == " }"@,
            self matches PublicKey::P256(a) ==> self.rendering().len() == 150
                && self.rendering().subrange(0, 18) == "PublicKey::P256 { "@
                && self.rendering().subrange(18, 148) == lower_hex(a@)
                && self.rendering().subrange(148, 150) == " }"@,
    {
        reveal_strlit("PublicKey::Curve25519 { ");
        reveal_strlit("PublicKey::P256 { ");
        reveal_strlit(" }");
    }

    /// Two keys are equal exactly where they hold the same bytes. A
    /// Curve25519 key and a P-256 key differ in length, so they are never
    /// equal.
    pub proof fn eq_laws(a: PublicKey, b: PublicKey)
        ensures
            PartialEqSpec::eq_spec(&a, &b) <==> a@ == b@,
            a is Curve25519 && b is P256 ==> !PartialEqSpec::eq_spec(&a, &b),
            a is P256 && b is Curve25519 ==> !PartialEqSpec::eq_spec(&a, &b),
    {
        match (a, b) {
            (PublicKey::Curve25519(x), PublicKey::Curve25519(y)) => {
                assert(x@ == y@ ==> x =~= y);
            },
            (PublicKey::P256(x), PublicKey::P256(y)) => {
                assert(x@ == y@ ==> x =~= y);
            },
            (PublicKey::Curve25519(x), PublicKey::P256(y)) => {
                assert(x@.len() == 32 && y@.len() == 65);
            },
            (PublicKey::P256(x), PublicKey::Curve25519(y)) => {
                assert(x@.len() == 65 && y@.len() == 32);
            },
        }
    }

    /// True if this is a Curve25519 Public Key
    pub fn is_curve25519(&self) -> (r: bool)
        ensures
            r == (self is Curve25519),
    {
        matches!(self, PublicKey::Curve25519(..))
    }

    /// True if this is a NIST P-256 (secp256r1, prime256v1) uncompressed public key
    pub fn is_p256(&self) -> (r: bool)
        ensures
            r == (self is P256),
    {
        matches!(self, PublicKey::P256(..))
    }
}

impl AsRef<[u8]> for PublicKey {
    fn as_ref(&self) -> (bytes: &[u8])
        ensures
            bytes@ == self@,
    {
        match self {
            PublicKey::Curve25519(a) => a.as_slice(),
            PublicKey::P256(a) => a.as_slice(),
        }
    }
}

impl PartialEq for PublicKey {
    fn eq(&self, other: &Self) -> (r: bool) {
        match (self, other) {
            (PublicKey::Curve25519(a), PublicKey::Curve25519(b)) => {
                assert(a@ == b@ ==> *a =~= *b);
                ct_eq_bytes(a.as_slice(), b.as_slice()) == 1
            },
            (PublicKey::P256(a), PublicKey::P256(b)) => {
                assert(a@ == b@ ==> *a =~= *b);
                ct_eq_bytes(a.as_slice(), b.as_slice()) == 1
            },
            (_, _) => false,
        }
    }
}

impl PartialEqSpecImpl for PublicKey {
    open spec fn obeys_eq_spec() -> bool {
        true
    }

    open spec fn eq_spec(&self, other: &Self) -> bool {
        *self == *other
    }
}

impl Eq for PublicKey {}

} // verus!
