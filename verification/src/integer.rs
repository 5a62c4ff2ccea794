//! What the operators of the integer element types compute, in terms of integers.

use std::ops::{Add, Div, Mul, Sub};
use vstd::prelude::*;
use vstd::std_specs::ops::{AddSpec, DivSpec, MulSpec, SubSpec};

use crate::datatypes::{
    ArrowNumericType, Int16Type, Int32Type, Int64Type, Int8Type, UInt16Type, UInt32Type,
    UInt64Type, UInt8Type,
};

verus! {

/// The distance of `x` from zero.
pub open spec fn magnitude(x: int) -> int {
    if x < 0 {
        -x
    } else {
        x
    }
}

/// The quotient of `a` and `b`, rounded toward zero.
pub open spec fn truncated_quotient(a: int, b: int) -> int {
    if (a < 0) == (b < 0) {
        magnitude(a) / magnitude(b)
    } else {
        -(magnitude(a) / magnitude(b))
    }
}

/// A machine integer.
pub trait NativeInteger: Copy + Add<Output = Self> + Sub<Output = Self> + Mul<Output = Self> + Div<
    Output = Self,
> {
    /// The integer that the value stands for.
    spec fn as_int(self) -> int;

    /// Some value stands for `x`.
    spec fn representable(x: int) -> bool;

    /// The operators do what they do on integers, wherever the result is representable, and may
    /// be used nowhere else. A value is determined by the integer that it stands for.
    proof fn operators_are_exact(a: Self, b: Self)
        ensures
            Self::representable(a.as_int()),
            a.as_int() == b.as_int() ==> a == b,
            Self::obeys_add_spec(),
            Self::obeys_sub_spec(),
            Self::obeys_mul_spec(),
            Self::obeys_div_spec(),
            a.add_req(b) == Self::representable(a.as_int() + b.as_int()),
            a.add_req(b) ==> a.add_spec(b).as_int() == a.as_int() + b.as_int(),
            a.sub_req(b) == Self::representable(a.as_int() - b.as_int()),
            a.sub_req(b) ==> a.sub_spec(b).as_int() == a.as_int() - b.as_int(),
            a.mul_req(b) == Self::representable(a.as_int() * b.as_int()),
            a.mul_req(b) ==> a.mul_spec(b).as_int() == a.as_int() * b.as_int(),
            a.div_req(b) == (b.as_int() != 0 && Self::representable(
                truncated_quotient(a.as_int(), b.as_int()),
            )),
            a.div_req(b) ==> a.div_spec(b).as_int() == truncated_quotient(a.as_int(), b.as_int()),
            b.as_int() != 0 && b.as_int() != -1 ==> a.div_req(b),
            b.as_int() == -1 ==> a.div_req(b) == Self::representable(-a.as_int()),
    ;
}

/// A numeric type whose values are machine integers.
pub trait ArrowIntegerType: ArrowNumericType where Self::Native: NativeInteger {
    /// The identities are the integers 0 and 1.
    proof fn identities_are_exact(x: Self::Native)
        ensures
            Self::is_zero_spec(x) == (x.as_int() == 0),
            Self::zero_spec().as_int() == 0,
            Self::one_spec().as_int() == 1,
            Self::default_spec().as_int() == 0,
    ;

    /// Two values compare equal if they stand for one integer.
    proof fn comparison_is_exact(a: Self::Native, b: Self::Native)
        ensures
            Self::eq_spec(a, b) == (a.as_int() == b.as_int()),
    ;
}

/// How truncation relates to the Euclidean quotient, and how large the result can be.
proof fn lemma_truncated_quotient(a: int, b: int)
    requires
        b != 0,
    ensures
        a >= 0 ==> truncated_quotient(a, b) == a / b,
        a < 0 ==> truncated_quotient(a, b) == -((-a) / b),
        magnitude(truncated_quotient(a, b)) <= magnitude(a),
        a < 0 && b != -1 ==> truncated_quotient(a, b) <= -a - 1,
        b == -1 ==> truncated_quotient(a, b) == -a,
{
    let m = magnitude(a);
    let n = magnitude(b);
    let q = m / n;
    assert(0 <= q <= m) by (nonlinear_arith)
        requires
            q == m / n,
            m >= 0,
            n >= 1,
    ;
    if n >= 2 && m >= 1 {
        assert(q < m) by (nonlinear_arith)
            requires
                q == m / n,
                m >= 1,
                n >= 2,
        ;
    }
    if b < 0 {
        assert(m / b == -(m / n)) by (nonlinear_arith)
            requires
                b < 0,
                n == -b,
                m >= 0,
        ;
    }
    if n == 1 {
        assert(q == m) by (nonlinear_arith)
            requires
                q == m / n,
                n == 1,
        ;
    }
}

/// A truncated quotient with the remainder that it leaves: the remainder is smaller than the
/// divisor and has the sign of the dividend.
pub proof fn truncation_leaves_remainder(a: int, b: int)
    requires
        b != 0,
    ensures
        magnitude(a - truncated_quotient(a, b) * b) < magnitude(b),
        a >= 0 ==> a - truncated_quotient(a, b) * b >= 0,
        a <= 0 ==> a - truncated_quotient(a, b) * b <= 0,
{
    let m = magnitude(a);
    let n = magnitude(b);
    let q = m / n;
    assert(0 <= m - q * n < n) by (nonlinear_arith)
        requires
            q == m / n,
            m >= 0,
            n >= 1,
    ;
    let t = truncated_quotient(a, b);
    assert(t * b == q * n || t * b == -(q * n)) by (nonlinear_arith)
        requires
            t == q || t == -q,
            b == n || b == -n,
    ;
    assert(a >= 0 ==> t * b == q * n) by (nonlinear_arith)
        requires
            a >= 0 && b > 0 ==> t == q && b == n,
            a >= 0 && b < 0 ==> t == -q && b == -n,
            b != 0,
    ;
    assert(a < 0 ==> t * b == -(q * n)) by (nonlinear_arith)
        requires
            a < 0 && b > 0 ==> t == -q && b == n,
            a < 0 && b < 0 ==> t == q && b == -n,
            b != 0,
    ;
}

/// Truncation gives back a factor of a product.
pub(crate) proof fn lemma_quotient_of_product(a: int, b: int)
    requires
        b != 0,
    ensures
        truncated_quotient(a * b, b) == a,
{
    let p = a * b;
    let n = magnitude(b);
    let k = magnitude(a);
    assert(magnitude(p) == k * n && (a != 0 ==> ((p < 0) == (b < 0)) == (a >= 0)))
        by (nonlinear_arith)
        requires
            p == a * b,
            b != 0,
            n == magnitude(b),
            k == magnitude(a),
    ;
    assert((k * n) / n == k) by (nonlinear_arith)
        requires
            n >= 1,
            k >= 0,
    ;
}

impl NativeInteger for i8 {
    open spec fn as_int(self) -> int {
        self as int
    }

    open spec fn representable(x: int) -> bool {
        i8::MIN <= x <= i8::MAX
    }

    proof fn operators_are_exact(a: i8, b: i8) {
        if b != 0 {
            lemma_truncated_quotient(a as int, b as int);
        }
    }
}

impl ArrowIntegerType for Int8Type {
    proof fn identities_are_exact(x: i8) {
    }

    proof fn comparison_is_exact(a: i8, b: i8) {
    }
}

impl NativeInteger for i16 {
    open spec fn as_int(self) -> int {
        self as int
    }

    open spec fn representable(x: int) -> bool {
        i16::MIN <= x <= i16::MAX
    }

    proof fn operators_are_exact(a: i16, b: i16) {
        if b != 0 {
            lemma_truncated_quotient(a as int, b as int);
        }
    }
}

impl ArrowIntegerType for Int16Type {
    proof fn identities_are_exact(x: i16) {
    }

    proof fn comparison_is_exact(a: i16, b: i16) {
    }
}

impl NativeInteger for i32 {
    open spec fn as_int(self) -> int {
        self as int
    }

    open spec fn representable(x: int) -> bool {
        i32::MIN <= x <= i32::MAX
    }

    proof fn operators_are_exact(a: i32, b: i32) {
        if b != 0 {
            lemma_truncated_quotient(a as int, b as int);
        }
    }
}

impl ArrowIntegerType for Int32Type {
    proof fn identities_are_exact(x: i32) {
    }

    proof fn comparison_is_exact(a: i32, b: i32) {
    }
}

impl NativeInteger for i64 {
    open spec fn as_int(self) -> int {
        self as int
    }

    open spec fn representable(x: int) -> bool {
        i64::MIN <= x <= i64::MAX
    }

    proof fn operators_are_exact(a: i64, b: i64) {
        if b != 0 {
            lemma_truncated_quotient(a as int, b as int);
        }
    }
}

impl ArrowIntegerType for Int64Type {
    proof fn identities_are_exact(x: i64) {
    }

    proof fn comparison_is_exact(a: i64, b: i64) {
    }
}

impl NativeInteger for u8 {
    open spec fn as_int(self) -> int {
        self as int
    }

    open spec fn representable(x: int) -> bool {
        u8::MIN <= x <= u8::MAX
    }

    proof fn operators_are_exact(a: u8, b: u8) {
        if b != 0 {
            lemma_truncated_quotient(a as int, b as int);
        }
    }
}

impl ArrowIntegerType for UInt8Type {
    proof fn identities_are_exact(x: u8) {
    }

    proof fn comparison_is_exact(a: u8, b: u8) {
    }
}

impl NativeInteger for u16 {
    open spec fn as_int(self) -> int {
        self as int
    }

    open spec fn representable(x: int) -> bool {
        u16::MIN <= x <= u16::MAX
    }

    proof fn operators_are_exact(a: u16, b: u16) {
        if b != 0 {
            lemma_truncated_quotient(a as int, b as int);
        }
    }
}

impl ArrowIntegerType for UInt16Type {
    proof fn identities_are_exact(x: u16) {
    }

    proof fn comparison_is_exact(a: u16, b: u16) {
    }
}

impl NativeInteger for u32 {
    open spec fn as_int(self) -> int {
        self as int
    }

    open spec fn representable(x: int) -> bool {
        u32::MIN <= x <= u32::MAX
    }

    proof fn operators_are_exact(a: u32, b: u32) {
        if b != 0 {
            lemma_truncated_quotient(a as int, b as int);
        }
    }
}

impl ArrowIntegerType for UInt32Type {
    proof fn identities_are_exact(x: u32) {
    }

    proof fn comparison_is_exact(a: u32, b: u32) {
    }
}

impl NativeInteger for u64 {
    open spec fn as_int(self) -> int {
        self as int
    }

    open spec fn representable(x: int) -> bool {
        u64::MIN <= x <= u64::MAX
    }

    proof fn operators_are_exact(a: u64, b: u64) {
        if b != 0 {
            lemma_truncated_quotient(a as int, b as int);
        }
    }
}

impl ArrowIntegerType for UInt64Type {
    proof fn identities_are_exact(x: u64) {
    }

    proof fn comparison_is_exact(a: u64, b: u64) {
    }
}

} // verus!
