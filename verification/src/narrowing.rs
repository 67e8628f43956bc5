//! Integer width conversions, delegated to the `cast` crate.

use vstd::prelude::*;

verus! {

/// The error type of the `cast` crate, carried through as an opaque value.
#[verifier::external_type_specification]
#[verifier::external_body]
pub struct ExCastError(cast::Error);

/// Calls `cast::u16` on a `u64`.
///
/// Trusted: the call succeeds exactly when `value` is at most `u16::MAX`,
/// and then yields the same number; any larger value is reported as an error
/// and never truncated.
#[verifier::external_body]
pub(crate) fn narrow_to_u16(value: u64) -> (narrowed: Result<u16, cast::Error>)
    ensures
        narrowed is Ok <==> value <= u16::MAX,
        narrowed matches Ok(number) ==> number == value,
{
    cast::u16(value)
}

/// Calls `cast::u64` on a `u16`.
///
/// Trusted: the promotion is lossless, the result is the same number.
#[verifier::external_body]
pub(crate) fn widen_to_u64(value: u16) -> (widened: u64)
    ensures
        widened == value,
{
    cast::u64(value)
}

} // verus!
