//! The numbers that coordinates are made of.
//!
//! The algorithms of this crate are written once, for every number type that
//! offers the four arithmetic operations, negation, comparison and a conversion
//! from small integers. What they compute is stated over the specifications
//! that each type gives to its own operations.
use core::ops::{Add, Div, Mul, Neg, Sub};
use vstd::prelude::*;
use vstd::std_specs::cmp::*;
use vstd::std_specs::convert::*;
use vstd::std_specs::ops::*;

verus! {

/// A number type that can serve as a coordinate.
///
/// The primitive signed integers and the IEEE binary types are scalars, and so
/// is any type of a caller that has these operations.
pub trait Scalar: Copy + PartialOrd + From<i8> + Add<Output = Self> + Sub<Output = Self> + Mul<
    Output = Self,
> + Div<Output = Self> + Neg<Output = Self> {

}

impl<T> Scalar for T where
    T: Copy + PartialOrd + From<i8> + Add<Output = T> + Sub<Output = T> + Mul<Output = T> + Div<
        Output = T,
    > + Neg<Output = T>,
 {

}

/// The comparisons of `T` return what their specifications say.
pub open spec fn ordered<T: Scalar>() -> bool {
    T::obeys_eq_spec() && T::obeys_partial_cmp_spec()
}

/// Every operation of `T` returns what its specification says.
///
/// Where this holds, the results of this crate are pinned down by their
/// contracts. It holds of the primitive integers. A type whose operations are
/// not specified as functions of their operands is not exact, and of such a
/// type the contracts promise only that the computation completes.
pub open spec fn exact<T: Scalar>() -> bool {
    &&& T::obeys_add_spec()
    &&& T::obeys_sub_spec()
    &&& T::obeys_mul_spec()
    &&& T::obeys_div_spec()
    &&& T::obeys_neg_spec()
    &&& T::obeys_from_spec()
    &&& ordered::<T>()
}

/// The arithmetic of `T` accepts all operands: no operation can overflow or
/// otherwise fail.
pub open spec fn total<T: Scalar>() -> bool {
    &&& forall|a: T, b: T| #[trigger] a.add_req(b)
    &&& forall|a: T, b: T| #[trigger] a.sub_req(b)
    &&& forall|a: T, b: T| #[trigger] a.mul_req(b)
    &&& forall|a: T, b: T| #[trigger] a.div_req(b)
    &&& forall|a: T| #[trigger] a.neg_req()
}

/// The scalar that stands for the small integer `k`.
pub open spec fn constant_of<T: Scalar>(k: i8) -> T {
    T::from_spec(k)
}

/// `x` is less than zero.
pub open spec fn negative<T: Scalar>(x: T) -> bool {
    x.is_lt(&constant_of::<T>(0))
}

/// The absolute value of `x`: `-x` below zero, zero at zero (of either sign,
/// where the type has two), and `x` itself otherwise.
pub open spec fn magnitude_of<T: Scalar>(x: T) -> T {
    if negative(x) {
        x.neg_spec()
    } else if x.eq_spec(&constant_of::<T>(0)) {
        constant_of::<T>(0)
    } else {
        x
    }
}

/// The negation that `magnitude_of` may need is defined.
pub open spec fn magnitude_defined<T: Scalar>(x: T) -> bool {
    negative(x) ==> x.neg_req()
}

/// The scalar that stands for the small integer `k`.
pub fn constant<T: Scalar>(k: i8) -> (c: T)
    ensures
        exact::<T>() ==> c == constant_of::<T>(k),
{
    T::from(k)
}

/// Whether `x` is less than zero.
pub fn is_negative<T: Scalar>(x: T) -> (b: bool)
    ensures
        exact::<T>() ==> b == negative(x),
{
    let zero: T = constant(0);
    x < zero
}

/// The absolute value of `x`.
pub fn magnitude<T: Scalar>(x: T) -> (m: T)
    requires
        total::<T>() || (exact::<T>() && magnitude_defined(x)),
    ensures
        exact::<T>() ==> m == magnitude_of(x),
{
    let zero: T = constant(0);
    if x < zero {
        x.neg()
    } else if x == zero {
        zero
    } else {
        x
    }
}

} // verus!
