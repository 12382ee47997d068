//! The three operations that this library leaves to other crates: comparing
//! bytes in constant time (`subtle`), clearing memory so that the compiler
//! cannot drop the writes (`zeroize`), and writing bytes as hexadecimal
//! digits (`hex`). Each stands behind one function here whose body makes the
//! call and whose contract is believed, not proved.

use vstd::prelude::*;
use subtle::ConstantTimeEq;
use zeroize::Zeroize;

verus! {

/// The sixteen digits of lower-case hexadecimal, each at the place of its
/// value.
pub open spec fn hex_digits() -> Seq<char> {
    seq!['0', '1', '2', '3', '4', '5', '6', '7', '8', '9', 'a', 'b', 'c', 'd', 'e', 'f']
}

/// Bytes written in lower-case hexadecimal: two digits for each byte, the
/// high half first.
pub open spec fn lower_hex(bytes: Seq<u8>) -> Seq<char> {
    Seq::new(
        2 * bytes.len(),
        |i: int|
            if i % 2 == 0 {
                hex_digits()[bytes[i / 2] as int / 16]
            } else {
                hex_digits()[bytes[i / 2] as int % 16]
            },
    )
}

/// Hexadecimal has two digits for each byte, and each is one of the sixteen
/// lower-case digits.
pub proof fn lower_hex_shape(bytes: Seq<u8>)
    ensures
        lower_hex(bytes).len() == 2 * bytes.len(),
        forall|i: int|
            0 <= i < lower_hex(bytes).len() ==> hex_digits().contains(
                #[trigger] lower_hex(bytes)[i],
            ),
{
    assert forall|i: int| 0 <= i < lower_hex(bytes).len() implies hex_digits().contains(
        #[trigger] lower_hex(bytes)[i],
    ) by {
        let byte = bytes[i / 2] as int;
        let place = if i % 2 == 0 {
            byte / 16
        } else {
            byte % 16
        };
        assert(0 <= place < 16);
        assert(lower_hex(bytes)[i] == hex_digits()[place]);
    }
}

/// `hex::encode` on a byte slice. Taken on trust: the text is the bytes in
/// lower-case hexadecimal, two digits for each byte with the high half first.
#[verifier::external_body]
pub(crate) fn hex_encode(data: &[u8]) -> (digits: String)
    ensures
        digits@ == lower_hex(data@),
{
    hex::encode(data)
}

/// `subtle::ConstantTimeEq::ct_eq` on two byte slices, opened with
/// `subtle::Choice::unwrap_u8`. Taken on trust: the result is 1 where the
/// slices have the same length and the same bytes, and 0 otherwise. Nothing
/// is claimed here of the time it takes; `subtle` ends the comparison early
/// only where the lengths differ.
#[verifier::external_body]
pub(crate) fn ct_eq_bytes(a: &[u8], b: &[u8]) -> (r: u8)
    ensures
        r == (if a@ == b@ { 1u8 } else { 0u8 }),
{
    a.ct_eq(b).unwrap_u8()
}

/// `zeroize::Zeroize::zeroize` on an array of bytes. Taken on trust: every
/// byte is zero afterwards, and the call does not panic. That the compiler
/// keeps the writes is the business of `zeroize` and is not claimed here.
#[verifier::external_body]
pub(crate) fn zeroize_array<const N: usize>(a: &mut [u8; N])
    ensures
        final(a)@ == Seq::new(N as nat, |i: int| 0u8),
    opens_invariants none
    no_unwind
{
    a.zeroize()
}

/// `zeroize::Zeroize::zeroize` on a vector of bytes, which overwrites the
/// bytes and the spare capacity with zero and then empties the vector. Taken
/// on trust: the vector is empty afterwards, and the call does not panic.
#[verifier::external_body]
pub(crate) fn zeroize_vec(v: &mut Vec<u8>)
    ensures
        final(v)@ == Seq::<u8>::empty(),
    opens_invariants none
    no_unwind
{
    v.zeroize()
}

} // verus!
