//! Arithmetic on pairs of arrays, slot by slot.

use std::ops::{Add, Div, Mul, Sub};
use vstd::prelude::*;
use vstd::std_specs::ops::{AddSpec, DivSpec, MulSpec, SubSpec};

use crate::array::{both_valid, PrimitiveArray, Slot};
use crate::datatypes::ArrowNumericType;
use crate::error::{length_mismatch, ArrowError, Result};
use crate::util::combine_option_bitmap;

verus! {

/// `f` applied to the values of each pair of slots. A slot is valid where both operands are.
pub open spec fn slotwise<N>(
    left: Seq<Slot<N>>,
    right: Seq<Slot<N>>,
    f: spec_fn(N, N) -> N,
) -> Seq<Slot<N>> {
    Seq::new(
        left.len(),
        |i: int|
            Slot { value: f(left[i].value, right[i].value), valid: both_valid(left, right, i) },
    )
}

/// `op` may be called on the values of each pair of slots.
pub open spec fn op_defined<N, F: Fn(N, N) -> N>(
    left: Seq<Slot<N>>,
    right: Seq<Slot<N>>,
    op: F,
) -> bool {
    forall|i: int|
        #![trigger left[i], right[i]]
        0 <= i < left.len() ==> call_requires(op, (left[i].value, right[i].value))
}

/// Each slot of `out` holds what `op` returned for the pair of values, and is valid where both
/// operands are.
pub open spec fn op_applied<N, F: Fn(N, N) -> N>(
    left: Seq<Slot<N>>,
    right: Seq<Slot<N>>,
    op: F,
    out: Seq<Slot<N>>,
) -> bool {
    &&& out.len() == left.len()
    &&& forall|i: int|
        0 <= i < out.len() ==> call_ensures(
            op,
            (left[i].value, right[i].value),
            (#[trigger] out[i]).value,
        ) && out[i].valid == both_valid(left, right, i)
}

/// Applies `op` to the values of each pair of slots. If either slot is null then so is the slot
/// of the result, so `1 + null` is `null`; the value stored beneath it is still what `op`
/// returned.
///
/// # Errors
///
/// Fails if the arrays have different lengths.
pub fn math_op<T, F>(
    left: &PrimitiveArray<T>,
    right: &PrimitiveArray<T>,
    op: F,
) -> (r: Result<PrimitiveArray<T>>) where
    T: ArrowNumericType,
    F: Fn(T::Native, T::Native) -> T::Native,

    requires
        left@.len() == right@.len() ==> op_defined(left@, right@, op),
    ensures
        match r {
            Ok(c) => {
                &&& left@.len() == right@.len()
                &&& op_applied(left@, right@, op, c@)
                &&& c.owns_storage()
                &&& c.has_null_bitmap() == (left.has_null_bitmap() || right.has_null_bitmap())
            },
            Err(e) => left@.len() != right@.len() && e.is_length_mismatch(),
        },
{
    if left.len() != right.len() {
        return Err(length_mismatch());
    }
    let null_bitmap = combine_option_bitmap(left, right);
    let len = left.len();
    let mut values: Vec<T::Native> = Vec::with_capacity(len);
    let mut i: usize = 0;
    while i < len
        invariant
            i <= len,
            len == left@.len(),
            len == right@.len(),
            op_defined(left@, right@, op),
            values@.len() == i,
            forall|j: int|
                0 <= j < i ==> call_ensures(
                    op,
                    (left@[j].value, right@[j].value),
                    #[trigger] values@[j],
                ),
        decreases len - i,
    {
        values.push(op(left.value(i), right.value(i)));
        i += 1;
    }
    Ok(PrimitiveArray::from_parts(values, null_bitmap))
}

/// The sum of each pair of values is representable.
pub open spec fn sums_defined<N: Add<Output = N>>(
    left: Seq<Slot<N>>,
    right: Seq<Slot<N>>,
) -> bool {
    forall|i: int|
        #![trigger left[i], right[i]]
        0 <= i < left.len() ==> left[i].value.add_req(right[i].value)
}

/// Slot-wise sums.
pub open spec fn sums<N: Add<Output = N>>(
    left: Seq<Slot<N>>,
    right: Seq<Slot<N>>,
) -> Seq<Slot<N>> {
    slotwise(left, right, |a: N, b: N| a.add_spec(b))
}

/// Performs `left + right` on two arrays. If either left or right value is null then the result
/// is also null.
pub fn add<T>(
    left: &PrimitiveArray<T>,
    right: &PrimitiveArray<T>,
) -> (r: Result<PrimitiveArray<T>>) where
    T: ArrowNumericType,
    T::Native: Add<Output = T::Native> + Sub<Output = T::Native> + Mul<Output = T::Native> + Div<
        Output = T::Native,
    >,

    requires
        left@.len() == right@.len() ==> sums_defined(left@, right@),
    ensures
        match r {
            Ok(c) => {
                &&& left@.len() == right@.len()
                &&& op_applied(left@, right@, <T::Native as Add>::add, c@)
                &&& T::Native::obeys_add_spec() ==> c@ == sums(left@, right@)
                &&& c.owns_storage()
                &&& c.has_null_bitmap() == (left.has_null_bitmap() || right.has_null_bitmap())
            },
            Err(e) => left@.len() != right@.len() && e.is_length_mismatch(),
        },
{
    math_op(left, right, <T::Native as Add>::add)
}

/// The difference of each pair of values is representable.
pub open spec fn differences_defined<N: Sub<Output = N>>(
    left: Seq<Slot<N>>,
    right: Seq<Slot<N>>,
) -> bool {
    forall|i: int|
        #![trigger left[i], right[i]]
        0 <= i < left.len() ==> left[i].value.sub_req(right[i].value)
}

/// Slot-wise differences.
pub open spec fn differences<N: Sub<Output = N>>(
    left: Seq<Slot<N>>,
    right: Seq<Slot<N>>,
) -> Seq<Slot<N>> {
    slotwise(left, right, |a: N, b: N| a.sub_spec(b))
}

/// Performs `left - right` on two arrays. If either left or right value is null then the result
/// is also null.
pub fn subtract<T>(
    left: &PrimitiveArray<T>,
    right: &PrimitiveArray<T>,
) -> (r: Result<PrimitiveArray<T>>) where
    T: ArrowNumericType,
    T::Native: Add<Output = T::Native> + Sub<Output = T::Native> + Mul<Output = T::Native> + Div<
        Output = T::Native,
    >,

    requires
        left@.len() == right@.len() ==> differences_defined(left@, right@),
    ensures
        match r {
            Ok(c) => {
                &&& left@.len() == right@.len()
                &&& op_applied(left@, right@, <T::Native as Sub>::sub, c@)
                &&& T::Native::obeys_sub_spec() ==> c@ == differences(left@, right@)
                &&& c.owns_storage()
                &&& c.has_null_bitmap() == (left.has_null_bitmap() || right.has_null_bitmap())
            },
            Err(e) => left@.len() != right@.len() && e.is_length_mismatch(),
        },
{
    math_op(left, right, <T::Native as Sub>::sub)
}

/// The product of each pair of values is representable.
pub open spec fn products_defined<N: Mul<Output = N>>(
    left: Seq<Slot<N>>,
    right: Seq<Slot<N>>,
) -> bool {
    forall|i: int|
        #![trigger left[i], right[i]]
        0 <= i < left.len() ==> left[i].value.mul_req(right[i].value)
}

/// Slot-wise products.
pub open spec fn products<N: Mul<Output = N>>(
    left: Seq<Slot<N>>,
    right: Seq<Slot<N>>,
) -> Seq<Slot<N>> {
    slotwise(left, right, |a: N, b: N| a.mul_spec(b))
}

/// Performs `left * right` on two arrays. If either left or right value is null then the result
/// is also null.
pub fn multiply<T>(
    left: &PrimitiveArray<T>,
    right: &PrimitiveArray<T>,
) -> (r: Result<PrimitiveArray<T>>) where
    T: ArrowNumericType,
    T::Native: Add<Output = T::Native> + Sub<Output = T::Native> + Mul<Output = T::Native> + Div<
        Output = T::Native,
    >,

    requires
        left@.len() == right@.len() ==> products_defined(left@, right@),
    ensures
        match r {
            Ok(c) => {
                &&& left@.len() == right@.len()
                &&& op_applied(left@, right@, <T::Native as Mul>::mul, c@)
                &&& T::Native::obeys_mul_spec() ==> c@ == products(left@, right@)
                &&& c.owns_storage()
                &&& c.has_null_bitmap() == (left.has_null_bitmap() || right.has_null_bitmap())
            },
            Err(e) => left@.len() != right@.len() && e.is_length_mismatch(),
        },
{
    math_op(left, right, <T::Native as Mul>::mul)
}

/// Some slot is valid in both operands and holds zero in the divisor.
pub open spec fn divides_by_zero<T: ArrowNumericType>(
    left: Seq<Slot<T::Native>>,
    right: Seq<Slot<T::Native>>,
) -> bool {
    exists|i: int|
        0 <= i < left.len() && both_valid(left, right, i) && T::is_zero_spec(
            (#[trigger] right[i]).value,
        )
}

/// No slot below `end` is valid in both operands and holds zero in the divisor.
pub open spec fn nonzero_below<T: ArrowNumericType>(
    left: Seq<Slot<T::Native>>,
    right: Seq<Slot<T::Native>>,
    end: int,
) -> bool {
    forall|i: int|
        0 <= i < end && both_valid(left, right, i) ==> !T::is_zero_spec(
            (#[trigger] right[i]).value,
        )
}

/// Each quotient that is computed is representable. The slots are taken in order, null slots are
/// passed over, and nothing is computed from the first zero divisor on.
pub open spec fn quotients_defined<T: ArrowNumericType>(
    left: Seq<Slot<T::Native>>,
    right: Seq<Slot<T::Native>>,
) -> bool where T::Native: Div<Output = T::Native> {
    forall|i: int|
        #![trigger left[i], right[i]]
        0 <= i < left.len() && both_valid(left, right, i) && nonzero_below::<T>(
            left,
            right,
            i + 1,
        ) ==> left[i].value.div_req(right[i].value)
}

/// Each valid slot of `out` holds what the division of the pair of values returned, and each null
/// slot the default value. A slot is valid where both operands are.
pub open spec fn division_applied<T: ArrowNumericType>(
    left: Seq<Slot<T::Native>>,
    right: Seq<Slot<T::Native>>,
    out: Seq<Slot<T::Native>>,
) -> bool where T::Native: Div<Output = T::Native> {
    &&& out.len() == left.len()
    &&& forall|i: int|
        0 <= i < out.len() ==> (#[trigger] out[i]).valid == both_valid(left, right, i) && (
        if out[i].valid {
            call_ensures(
                <T::Native as Div>::div,
                (left[i].value, right[i].value),
                out[i].value,
            )
        } else {
            out[i].value == T::default_spec()
        })
}

/// Slot-wise quotients, with the default value beneath each null.
pub open spec fn quotients<T: ArrowNumericType>(
    left: Seq<Slot<T::Native>>,
    right: Seq<Slot<T::Native>>,
) -> Seq<Slot<T::Native>> where T::Native: Div<Output = T::Native> {
    Seq::new(
        left.len(),
        |i: int|
            Slot {
                value: if both_valid(left, right, i) {
                    left[i].value.div_spec(right[i].value)
                } else {
                    T::default_spec()
                },
                valid: both_valid(left, right, i),
            },
    )
}

/// Divides two arrays. If either left or right value is null then nothing is divided there and the
/// result is also null.
///
/// # Errors
///
/// Fails if the arrays have different lengths, or if a division by zero is found.
pub fn math_divide<T>(
    left: &PrimitiveArray<T>,
    right: &PrimitiveArray<T>,
) -> (r: Result<PrimitiveArray<T>>) where
    T: ArrowNumericType,
    T::Native: Div<Output = T::Native>,

    requires
        left@.len() == right@.len() ==> quotients_defined::<T>(left@, right@),
    ensures
        match r {
            Ok(c) => {
                &&& left@.len() == right@.len()
                &&& !divides_by_zero::<T>(left@, right@)
                &&& division_applied::<T>(left@, right@, c@)
                &&& T::Native::obeys_div_spec() ==> c@ == quotients::<T>(left@, right@)
                &&& c.owns_storage()
                &&& c.has_null_bitmap() == (left.has_null_bitmap() || right.has_null_bitmap())
            },
            Err(ArrowError::DivideByZero) => left@.len() == right@.len() && divides_by_zero::<T>(
                left@,
                right@,
            ),
            Err(e) => left@.len() != right@.len() && e.is_length_mismatch(),
        },
{
    if left.len() != right.len() {
        return Err(length_mismatch());
    }
    let null_bitmap = combine_option_bitmap(left, right);
    let len = left.len();
    let mut values: Vec<T::Native> = Vec::with_capacity(len);
    let mut i: usize = 0;
    while i < len
        invariant
            i <= len,
            len == left@.len(),
            len == right@.len(),
            quotients_defined::<T>(left@, right@),
            nonzero_below::<T>(left@, right@, i as int),
            null_bitmap is Some ==> len <= null_bitmap->Some_0@.len(),
            forall|j: int|
                0 <= j < len ==> #[trigger] both_valid(left@, right@, j) == (null_bitmap is Some
                    ==> null_bitmap->Some_0@[j]),
            values@.len() == i,
            forall|j: int|
                0 <= j < i && !both_valid(left@, right@, j) ==> #[trigger] values@[j]
                    == T::default_spec(),
            forall|j: int|
                0 <= j < i && both_valid(left@, right@, j) ==> call_ensures(
                    <T::Native as Div>::div,
                    (left@[j].value, right@[j].value),
                    #[trigger] values@[j],
                ),
        decreases len - i,
    {
        let valid = match &null_bitmap {
            Some(b) => b.get_bit(i),
            None => true,
        };
        assert(valid == both_valid(left@, right@, i as int));
        if valid {
            let right_value = right.value(i);
            if T::is_zero(&right_value) {
                return Err(ArrowError::DivideByZero);
            }
            values.push(left.value(i) / right_value);
        } else {
            values.push(T::default_value());
        }
        i += 1;
    }
    Ok(PrimitiveArray::from_parts(values, null_bitmap))
}

/// Some valid slot holds zero.
pub open spec fn holds_zero<T: ArrowNumericType>(right: Seq<Slot<T::Native>>) -> bool {
    exists|i: int|
        0 <= i < right.len() && (#[trigger] right[i]).valid && T::is_zero_spec(right[i].value)
}

/// Whether some valid slot holds zero.
fn any_zero<T: ArrowNumericType>(right: &PrimitiveArray<T>) -> (r: bool)
    ensures
        r == holds_zero::<T>(right@),
{
    let len = right.len();
    let mut i: usize = 0;
    while i < len
        invariant
            i <= len,
            len == right@.len(),
            forall|j: int|
                0 <= j < i && (#[trigger] right@[j]).valid ==> !T::is_zero_spec(right@[j].value),
        decreases len - i,
    {
        if right.is_valid(i) && T::is_zero(&right.value(i)) {
            assert(right@[i as int].valid);
            return true;
        }
        i += 1;
    }
    false
}

/// Performs `left / right` on two arrays. If either left or right value is null then the result
/// is also null. If any right hand value is zero then the result of this operation is
/// `Err(ArrowError::DivideByZero)`, whatever stands opposite the zero; a zero stored beneath a
/// null is no value.
pub fn divide<T>(
    left: &PrimitiveArray<T>,
    right: &PrimitiveArray<T>,
) -> (r: Result<PrimitiveArray<T>>) where
    T: ArrowNumericType,
    T::Native: Add<Output = T::Native> + Sub<Output = T::Native> + Mul<Output = T::Native> + Div<
        Output = T::Native,
    >,

    requires
        left@.len() == right@.len() && !holds_zero::<T>(right@) ==> quotients_defined::<T>(
            left@,
            right@,
        ),
    ensures
        match r {
            Ok(c) => {
                &&& left@.len() == right@.len()
                &&& !holds_zero::<T>(right@)
                &&& division_applied::<T>(left@, right@, c@)
                &&& T::Native::obeys_div_spec() ==> c@ == quotients::<T>(left@, right@)
                &&& c.owns_storage()
                &&& c.has_null_bitmap() == (left.has_null_bitmap() || right.has_null_bitmap())
            },
            Err(ArrowError::DivideByZero) => left@.len() == right@.len() && holds_zero::<T>(
                right@,
            ),
            Err(e) => left@.len() != right@.len() && e.is_length_mismatch(),
        },
{
    if left.len() == right.len() && any_zero(right) {
        return Err(ArrowError::DivideByZero);
    }
    math_divide(left, right)
}

} // verus!
