//! The ways in which a geometric operation can fail.

use vstd::prelude::*;

verus! {

/// Why a geometric operation gave no result.
#[derive(Clone, Copy, Debug, PartialEq, Eq, Structural)]
pub enum GeometryError {
    /// A rectangle was given a negative width or height.
    InvalidDimensions,
    /// The transform is singular: the element it was read from has no area.
    NonInvertibleTransform,
    /// A quotient was asked for whose divisor is zero.
    DivisionByZero,
    /// An exact intermediate or final value is not representable.
    Overflow,
}

/// Whether `r` is the outcome of computing the value `v` exactly, where
/// `fits` says whether every number met on the way is representable: a value
/// whose view is `v` if so, an overflow if not.
pub open spec fn computed<T: View>(r: Result<T, GeometryError>, v: T::V, fits: bool) -> bool {
    match r {
        Ok(t) => t@ == v && fits,
        Err(e) => e == GeometryError::Overflow && !fits,
    }
}

} // verus!
