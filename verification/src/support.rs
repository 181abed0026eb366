//! Standard-library calls whose behaviour vstd does not specify.
use vstd::prelude::*;
use vstd::utf8::{decode_utf8, valid_utf8};

verus! {

/// Calls `std::str::from_utf8`: the result is a string exactly when the bytes are
/// well-formed UTF-8, and that string decodes from the bytes.
#[verifier::external_body]
pub(crate) fn utf8_view(bytes: &[u8]) -> (text: Option<&str>)
    ensures
        text is Some <==> valid_utf8(bytes@),
        text matches Some(s) ==> s@ == decode_utf8(bytes@),
{
    std::str::from_utf8(bytes).ok()
}

/// Calls `Vec::try_reserve_exact`: reports whether capacity for `additional` more
/// elements was reserved; the contents never change.
#[verifier::external_body]
pub(crate) fn try_reserve_exact<T>(v: &mut Vec<T>, additional: usize) -> (reserved: bool)
    ensures
        final(v)@ == old(v)@,
{
    v.try_reserve_exact(additional).is_ok()
}

/// Calls `Vec::capacity`: the number of elements the vector holds without
/// reallocating, never less than its length.
#[verifier::external_body]
pub(crate) fn vec_capacity(v: &Vec<u8>) -> (capacity: usize)
    ensures
        capacity >= v@.len(),
{
    v.capacity()
}

/// Calls `Vec::reserve_exact`: makes room for at least `additional` more bytes
/// (panicking only when the new capacity would pass `isize::MAX` bytes, which
/// `requires` rules out); the contents never change.
#[verifier::external_body]
pub(crate) fn reserve_exact(v: &mut Vec<u8>, additional: usize)
    requires
        old(v)@.len() + additional <= isize::MAX,
    ensures
        final(v)@ == old(v)@,
{
    v.reserve_exact(additional)
}

} // verus!
