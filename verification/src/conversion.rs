//! Conversions, as contracts speak of them.

use vstd::prelude::*;

verus! {

/// The conversion of a value into its own type, `From<T> for T` of the
/// standard library, whose documentation says that it returns the argument
/// unchanged. The contract says so.
pub assume_specification<A>[ <A as core::convert::From<A>>::from ](a: A) -> (r: A)
    ensures
        r == a,
;

/// Whether `result` may be what converting `value` gives. For an unsigned
/// integer that is converted into a wider one, or into its own type, only the
/// integer itself may be.
pub open spec fn converts_to<Source: Into<Target>, Target>(value: Source, result: Target) -> bool {
    call_ensures(<Source as Into<Target>>::into, (value,), result)
}

} // verus!
