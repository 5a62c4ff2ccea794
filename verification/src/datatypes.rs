//! The element types of arrays.

use std::ops::Div;
use vstd::prelude::*;
use vstd::std_specs::ops::DivSpec;

use crate::identities::{
    i8_is_zero, i8_one, i8_zero,
    i16_is_zero, i16_one, i16_zero,
    i32_is_zero, i32_one, i32_zero,
    i64_is_zero, i64_one, i64_zero,
    u8_is_zero, u8_one, u8_zero,
    u16_is_zero, u16_one, u16_zero,
    u32_is_zero, u32_one, u32_zero,
    u64_is_zero, u64_one, u64_zero,
};

verus! {

/// A type of array whose slots hold plain values.
pub trait ArrowPrimitiveType {
    /// The value that one slot holds.
    type Native: Copy;

    /// What `default_value` returns.
    spec fn default_spec() -> Self::Native;

    /// The value stored in a slot that has nothing better to hold.
    fn default_value() -> (r: Self::Native)
        ensures
            r == Self::default_spec(),
    ;
}

/// A primitive type that the arithmetic kernels work on.
pub trait ArrowNumericType: ArrowPrimitiveType {
    /// What `is_zero` answers.
    spec fn is_zero_spec(x: Self::Native) -> bool;

    /// What `zero` returns.
    spec fn zero_spec() -> Self::Native;

    /// What `one` returns.
    spec fn one_spec() -> Self::Native;

    /// What `eq` answers.
    spec fn eq_spec(a: Self::Native, b: Self::Native) -> bool;

    /// What `lanes` returns.
    spec fn lanes_spec() -> usize;

    /// Whether `x` is the additive identity.
    fn is_zero(x: &Self::Native) -> (r: bool)
        ensures
            r == Self::is_zero_spec(*x),
    ;

    /// The additive identity.
    fn zero() -> (r: Self::Native)
        ensures
            r == Self::zero_spec(),
    ;

    /// The multiplicative identity.
    fn one() -> (r: Self::Native)
        ensures
            r == Self::one_spec(),
    ;

    /// Whether two values compare equal.
    fn eq(a: &Self::Native, b: &Self::Native) -> (r: bool)
        ensures
            r == Self::eq_spec(*a, *b),
    ;

    /// How many values one vector register holds.
    fn lanes() -> (r: usize)
        ensures
            r == Self::lanes_spec(),
    ;

    /// A register holds at least one value.
    proof fn lanes_is_positive()
        ensures
            Self::lanes_spec() > 0,
    ;

    /// To be zero is to compare equal to the additive identity.
    proof fn zero_test_is_comparison(x: Self::Native)
        ensures
            Self::eq_spec(Self::zero_spec(), x) == Self::is_zero_spec(x),
    ;

    /// The multiplicative identity is not zero.
    proof fn one_is_not_zero()
        ensures
            !Self::is_zero_spec(Self::one_spec()),
    ;

    /// Every value may be divided by the multiplicative identity.
    proof fn one_divides(x: Self::Native) where Self::Native: Div<Output = Self::Native>
        ensures
            x.div_req(Self::one_spec()),
    ;
}

/// Signed 8-bit integers.
pub struct Int8Type;

impl ArrowPrimitiveType for Int8Type {
    type Native = i8;

    open spec fn default_spec() -> i8 {
        0
    }

    fn default_value() -> (r: i8) {
        0
    }
}

impl ArrowNumericType for Int8Type {
    open spec fn is_zero_spec(x: i8) -> bool {
        x == 0
    }

    open spec fn zero_spec() -> i8 {
        0
    }

    open spec fn one_spec() -> i8 {
        1
    }

    open spec fn eq_spec(a: i8, b: i8) -> bool {
        a == b
    }

    open spec fn lanes_spec() -> usize {
        64
    }

    fn is_zero(x: &i8) -> (r: bool) {
        i8_is_zero(x)
    }

    fn zero() -> (r: i8) {
        i8_zero()
    }

    fn one() -> (r: i8) {
        i8_one()
    }

    fn eq(a: &i8, b: &i8) -> (r: bool) {
        *a == *b
    }

    fn lanes() -> (r: usize) {
        64
    }

    proof fn lanes_is_positive() {
    }

    proof fn zero_test_is_comparison(x: i8) {
    }

    proof fn one_is_not_zero() {
    }

    proof fn one_divides(x: i8) {
    }
}

/// Signed 16-bit integers.
pub struct Int16Type;

impl ArrowPrimitiveType for Int16Type {
    type Native = i16;

    open spec fn default_spec() -> i16 {
        0
    }

    fn default_value() -> (r: i16) {
        0
    }
}

impl ArrowNumericType for Int16Type {
    open spec fn is_zero_spec(x: i16) -> bool {
        x == 0
    }

    open spec fn zero_spec() -> i16 {
        0
    }

    open spec fn one_spec() -> i16 {
        1
    }

    open spec fn eq_spec(a: i16, b: i16) -> bool {
        a == b
    }

    open spec fn lanes_spec() -> usize {
        32
    }

    fn is_zero(x: &i16) -> (r: bool) {
        i16_is_zero(x)
    }

    fn zero() -> (r: i16) {
        i16_zero()
    }

    fn one() -> (r: i16) {
        i16_one()
    }

    fn eq(a: &i16, b: &i16) -> (r: bool) {
        *a == *b
    }

    fn lanes() -> (r: usize) {
        32
    }

    proof fn lanes_is_positive() {
    }

    proof fn zero_test_is_comparison(x: i16) {
    }

    proof fn one_is_not_zero() {
    }

    proof fn one_divides(x: i16) {
    }
}

/// Signed 32-bit integers.
pub struct Int32Type;

impl ArrowPrimitiveType for Int32Type {
    type Native = i32;

    open spec fn default_spec() -> i32 {
        0
    }

    fn default_value() -> (r: i32) {
        0
    }
}

impl ArrowNumericType for Int32Type {
    open spec fn is_zero_spec(x: i32) -> bool {
        x == 0
    }

    open spec fn zero_spec() -> i32 {
        0
    }

    open spec fn one_spec() -> i32 {
        1
    }

    open spec fn eq_spec(a: i32, b: i32) -> bool {
        a == b
    }

    open spec fn lanes_spec() -> usize {
        16
    }

    fn is_zero(x: &i32) -> (r: bool) {
        i32_is_zero(x)
    }

    fn zero() -> (r: i32) {
        i32_zero()
    }

    fn one() -> (r: i32) {
        i32_one()
    }

    fn eq(a: &i32, b: &i32) -> (r: bool) {
        *a == *b
    }

    fn lanes() -> (r: usize) {
        16
    }

    proof fn lanes_is_positive() {
    }

    proof fn zero_test_is_comparison(x: i32) {
    }

    proof fn one_is_not_zero() {
    }

    proof fn one_divides(x: i32) {
    }
}

/// Signed 64-bit integers.
pub struct Int64Type;

impl ArrowPrimitiveType for Int64Type {
    type Native = i64;

    open spec fn default_spec() -> i64 {
        0
    }

    fn default_value() -> (r: i64) {
        0
    }
}

impl ArrowNumericType for Int64Type {
    open spec fn is_zero_spec(x: i64) -> bool {
        x == 0
    }

    open spec fn zero_spec() -> i64 {
        0
    }

    open spec fn one_spec() -> i64 {
        1
    }

    open spec fn eq_spec(a: i64, b: i64) -> bool {
        a == b
    }

    open spec fn lanes_spec() -> usize {
        8
    }

    fn is_zero(x: &i64) -> (r: bool) {
        i64_is_zero(x)
    }

    fn zero() -> (r: i64) {
        i64_zero()
    }

    fn one() -> (r: i64) {
        i64_one()
    }

    fn eq(a: &i64, b: &i64) -> (r: bool) {
        *a == *b
    }

    fn lanes() -> (r: usize) {
        8
    }

    proof fn lanes_is_positive() {
    }

    proof fn zero_test_is_comparison(x: i64) {
    }

    proof fn one_is_not_zero() {
    }

    proof fn one_divides(x: i64) {
    }
}

/// Unsigned 8-bit integers.
pub struct UInt8Type;

impl ArrowPrimitiveType for UInt8Type {
    type Native = u8;

    open spec fn default_spec() -> u8 {
        0
    }

    fn default_value() -> (r: u8) {
        0
    }
}

impl ArrowNumericType for UInt8Type {
    open spec fn is_zero_spec(x: u8) -> bool {
        x == 0
    }

    open spec fn zero_spec() -> u8 {
        0
    }

    open spec fn one_spec() -> u8 {
        1
    }

    open spec fn eq_spec(a: u8, b: u8) -> bool {
        a == b
    }

    open spec fn lanes_spec() -> usize {
        64
    }

    fn is_zero(x: &u8) -> (r: bool) {
        u8_is_zero(x)
    }

    fn zero() -> (r: u8) {
        u8_zero()
    }

    fn one() -> (r: u8) {
        u8_one()
    }

    fn eq(a: &u8, b: &u8) -> (r: bool) {
        *a == *b
    }

    fn lanes() -> (r: usize) {
        64
    }

    proof fn lanes_is_positive() {
    }

    proof fn zero_test_is_comparison(x: u8) {
    }

    proof fn one_is_not_zero() {
    }

    proof fn one_divides(x: u8) {
    }
}

/// Unsigned 16-bit integers.
pub struct UInt16Type;

impl ArrowPrimitiveType for UInt16Type {
    type Native = u16;

    open spec fn default_spec() -> u16 {
        0
    }

    fn default_value() -> (r: u16) {
        0
    }
}

impl ArrowNumericType for UInt16Type {
    open spec fn is_zero_spec(x: u16) -> bool {
        x == 0
    }

    open spec fn zero_spec() -> u16 {
        0
    }

    open spec fn one_spec() -> u16 {
        1
    }

    open spec fn eq_spec(a: u16, b: u16) -> bool {
        a == b
    }

    open spec fn lanes_spec() -> usize {
        32
    }

    fn is_zero(x: &u16) -> (r: bool) {
        u16_is_zero(x)
    }

    fn zero() -> (r: u16) {
        u16_zero()
    }

    fn one() -> (r: u16) {
        u16_one()
    }

    fn eq(a: &u16, b: &u16) -> (r: bool) {
        *a == *b
    }

    fn lanes() -> (r: usize) {
        32
    }

    proof fn lanes_is_positive() {
    }

    proof fn zero_test_is_comparison(x: u16) {
    }

    proof fn one_is_not_zero() {
    }

    proof fn one_divides(x: u16) {
    }
}

/// Unsigned 32-bit integers.
pub struct UInt32Type;

impl ArrowPrimitiveType for UInt32Type {
    type Native = u32;

    open spec fn default_spec() -> u32 {
        0
    }

    fn default_value() -> (r: u32) {
        0
    }
}

impl ArrowNumericType for UInt32Type {
    open spec fn is_zero_spec(x: u32) -> bool {
        x == 0
    }

    open spec fn zero_spec() -> u32 {
        0
    }

    open spec fn one_spec() -> u32 {
        1
    }

    open spec fn eq_spec(a: u32, b: u32) -> bool {
        a == b
    }

    open spec fn lanes_spec() -> usize {
        16
    }

    fn is_zero(x: &u32) -> (r: bool) {
        u32_is_zero(x)
    }

    fn zero() -> (r: u32) {
        u32_zero()
    }

    fn one() -> (r: u32) {
        u32_one()
    }

    fn eq(a: &u32, b: &u32) -> (r: bool) {
        *a == *b
    }

    fn lanes() -> (r: usize) {
        16
    }

    proof fn lanes_is_positive() {
    }

    proof fn zero_test_is_comparison(x: u32) {
    }

    proof fn one_is_not_zero() {
    }

    proof fn one_divides(x: u32) {
    }
}

/// Unsigned 64-bit integers.
pub struct UInt64Type;

impl ArrowPrimitiveType for UInt64Type {
    type Native = u64;

    open spec fn default_spec() -> u64 {
        0
    }

    fn default_value() -> (r: u64) {
        0
    }
}

impl ArrowNumericType for UInt64Type {
    open spec fn is_zero_spec(x: u64) -> bool {
        x == 0
    }

    open spec fn zero_spec() -> u64 {
        0
    }

    open spec fn one_spec() -> u64 {
        1
    }

    open spec fn eq_spec(a: u64, b: u64) -> bool {
        a == b
    }

    open spec fn lanes_spec() -> usize {
        8
    }

    fn is_zero(x: &u64) -> (r: bool) {
        u64_is_zero(x)
    }

    fn zero() -> (r: u64) {
        u64_zero()
    }

    fn one() -> (r: u64) {
        u64_one()
    }

    fn eq(a: &u64, b: &u64) -> (r: bool) {
        *a == *b
    }

    fn lanes() -> (r: usize) {
        8
    }

    proof fn lanes_is_positive() {
    }

    proof fn zero_test_is_comparison(x: u64) {
    }

    proof fn one_is_not_zero() {
    }

    proof fn one_divides(x: u64) {
    }
}

} // verus!
