use vstd::prelude::*;
use vstd::std_specs::ops::{AddSpec, DivSpec, MulSpec, RemSpec, SubSpec};

verus! {

/// The requirements for types that can be used as the components of a vector.
///
/// An item supports the five arithmetic operators, and each operator returns
/// exactly the result that `vstd` states for it. It is implemented for the
/// primitive integer types of fixed width up to 64 bits.
pub trait VectorItem: Copy + PartialEq + Default + core::fmt::Debug + core::ops::Add<
    Output = Self,
> + core::ops::Sub<Output = Self> + core::ops::Mul<Output = Self> + core::ops::Div<
    Output = Self,
> + core::ops::Rem<Output = Self> {
    /// Every operator of the type returns what `vstd` states for it.
    proof fn obeys_arithmetic()
        ensures
            <Self as AddSpec>::obeys_add_spec(),
            <Self as SubSpec>::obeys_sub_spec(),
            <Self as MulSpec>::obeys_mul_spec(),
            <Self as DivSpec>::obeys_div_spec(),
            <Self as RemSpec>::obeys_rem_spec(),
    ;
}

impl VectorItem for i8 {
    proof fn obeys_arithmetic() {
    }
}

impl VectorItem for i16 {
    proof fn obeys_arithmetic() {
    }
}

impl VectorItem for i32 {
    proof fn obeys_arithmetic() {
    }
}

impl VectorItem for i64 {
    proof fn obeys_arithmetic() {
    }
}

impl VectorItem for u8 {
    proof fn obeys_arithmetic() {
    }
}

impl VectorItem for u16 {
    proof fn obeys_arithmetic() {
    }
}

impl VectorItem for u32 {
    proof fn obeys_arithmetic() {
    }
}

impl VectorItem for u64 {
    proof fn obeys_arithmetic() {
    }
}

} // verus!
