//! Checked integer conversions, delegated to the `cast` crate.

use vstd::prelude::*;

verus! {

#[verifier::external_type_specification]
#[verifier::external_body]
pub struct ExCastError(cast::Error);

/// Relies on `cast::u16` for a `u32` source: `Ok` with the same value when it
/// fits in 16 bits, `Err(Error::Overflow)` otherwise.
#[verifier::external_body]
pub(crate) fn checked_u16(x: u32) -> (r: Result<u16, cast::Error>)
    ensures
        match r {
            Ok(v) => x <= 0xFFFF && v as u32 == x,
            Err(_) => x > 0xFFFF,
        },
{
    cast::u16(x)
}

/// Relies on `cast::u32` for a `u16` source: a lossless promotion.
#[verifier::external_body]
pub(crate) fn widen_u16(x: u16) -> (r: u32)
    ensures
        r == x as u32,
{
    cast::u32(x)
}

} // verus!
