//! The SDK's wide integers and the host's native ones.
//!
//! Several record fields and arguments have the C type `long`, which is as
//! wide as 64 bits on some targets.  The host model holds them as `i32`.
//! Widening is total; narrowing is offered only for values that fit, so no
//! value is ever cut down silently.

use vstd::prelude::*;

verus! {

/// Whether a wide value is within the host's native range.
pub open spec fn spec_fits(wide: i64) -> bool {
    i32::MIN <= wide <= i32::MAX
}

#[verifier::when_used_as_spec(spec_fits)]
pub fn fits(wide: i64) -> (b: bool)
    ensures
        b == spec_fits(wide),
{
    -0x8000_0000 <= wide && wide <= 0x7fff_ffff
}

/// The same number in the host's native width.
pub fn narrow(wide: i64) -> (v: i32)
    requires
        spec_fits(wide),
    ensures
        v == wide,
{
    wide as i32
}

/// The same number in the SDK's wide type.
pub fn widen(v: i32) -> (wide: i64)
    ensures
        wide == v,
        spec_fits(wide),
{
    v as i64
}

} // verus!
