//! The kernels on whole registers: they take the slots `T::lanes()` at a time.

use std::ops::Div;
use vstd::arithmetic::div_mod::{lemma_fundamental_div_mod, lemma_mod_add_multiples_vanish};
use vstd::prelude::*;
use vstd::std_specs::ops::DivSpec;

use crate::arithmetic::{divides_by_zero, nonzero_below};
use crate::array::{both_valid, stored, PrimitiveArray, Slot};
use crate::datatypes::ArrowNumericType;
use crate::error::{length_mismatch, ArrowError, Result};
use crate::simd::{divisor_register, mask_any, register, Simd};
use crate::util::combine_option_bitmap;

verus! {

/// A register begins at slot `start`.
pub open spec fn register_start<T: ArrowNumericType>(start: int, len: int) -> bool {
    0 <= start < len && start % (T::lanes_spec() as int) == 0
}

/// The first slot past the register that begins at `start`.
pub open spec fn register_end<T: ArrowNumericType>(start: int, len: int) -> int {
    if start + T::lanes_spec() < len {
        start + T::lanes_spec()
    } else {
        len
    }
}

/// `x` and `y` hold the registers of the operands that begin at `start`.
pub open spec fn operands_at<T: ArrowNumericType>(
    left: Seq<Slot<T::Native>>,
    right: Seq<Slot<T::Native>>,
    start: int,
    x: Simd<T>,
    y: Simd<T>,
) -> bool {
    &&& register_start::<T>(start, left.len() as int)
    &&& x@ == register::<T>(left, start)
    &&& y@ == register::<T>(right, start)
}

/// `op` may be called on each pair of registers.
pub open spec fn simd_op_defined<T: ArrowNumericType, F: Fn(Simd<T>, Simd<T>) -> Simd<T>>(
    left: Seq<Slot<T::Native>>,
    right: Seq<Slot<T::Native>>,
    op: F,
) -> bool {
    forall|start: int, x: Simd<T>, y: Simd<T>| #[trigger]
        operands_at(left, right, start, x, y) ==> call_requires(op, (x, y))
}

/// `z` is what `op` returned for the registers that begin at `start`, and `out` holds its lanes.
pub open spec fn register_from<T: ArrowNumericType, F: Fn(Simd<T>, Simd<T>) -> Simd<T>>(
    left: Seq<Slot<T::Native>>,
    right: Seq<Slot<T::Native>>,
    op: F,
    out: Seq<T::Native>,
    start: int,
    x: Simd<T>,
    y: Simd<T>,
    z: Simd<T>,
) -> bool {
    &&& operands_at(left, right, start, x, y)
    &&& call_ensures(op, (x, y), z)
    &&& z@.len() == T::lanes_spec()
    &&& out.subrange(start, register_end::<T>(start, left.len() as int)) == z@.take(
        register_end::<T>(start, left.len() as int) - start,
    )
}

/// All that `out` holds of the register that begins at `start` comes from one result of `op` for
/// the registers of the operands that begin there.
pub open spec fn register_applied<T: ArrowNumericType, F: Fn(Simd<T>, Simd<T>) -> Simd<T>>(
    left: Seq<Slot<T::Native>>,
    right: Seq<Slot<T::Native>>,
    op: F,
    out: Seq<T::Native>,
    start: int,
) -> bool {
    exists|x: Simd<T>, y: Simd<T>, z: Simd<T>| #[trigger]
        register_from(left, right, op, out, start, x, y, z)
}

/// Each register of `out` holds what `op` returned for the registers of the operands. A slot is
/// valid where both operands are.
pub open spec fn simd_op_applied<T: ArrowNumericType, F: Fn(Simd<T>, Simd<T>) -> Simd<T>>(
    left: Seq<Slot<T::Native>>,
    right: Seq<Slot<T::Native>>,
    op: F,
    out: Seq<Slot<T::Native>>,
) -> bool {
    &&& out.len() == left.len()
    &&& forall|i: int|
        0 <= i < out.len() ==> (#[trigger] out[i]).valid == both_valid(left, right, i)
    &&& forall|start: int| #[trigger]
        register_start::<T>(start, left.len() as int) ==> register_applied(
            left,
            right,
            op,
            stored(out),
            start,
        )
}

proof fn lemma_next_register<T: ArrowNumericType>(start: int, len: int)
    requires
        register_start::<T>(start, len),
        start + T::lanes_spec() < len,
    ensures
        register_start::<T>(start + T::lanes_spec(), len),
{
    T::lanes_is_positive();
    lemma_mod_add_multiples_vanish(start, T::lanes_spec() as int);
}

/// Of two registers, the first ends before the second begins.
proof fn lemma_registers_are_apart<T: ArrowNumericType>(first: int, second: int, len: int)
    requires
        register_start::<T>(first, len),
        register_start::<T>(second, len),
        first < second,
    ensures
        first + T::lanes_spec() <= second,
{
    T::lanes_is_positive();
    let n = T::lanes_spec() as int;
    let a = first / n;
    let b = second / n;
    lemma_fundamental_div_mod(first, n);
    lemma_fundamental_div_mod(second, n);
    assert(n * a + n <= n * b) by (nonlinear_arith)
        requires
            n * a < n * b,
            n > 0,
    ;
}

/// Vectorized version of `math_op`: applies `op` to each pair of registers.
///
/// # Errors
///
/// Fails if the arrays have different lengths.
pub fn simd_math_op<T, F>(
    left: &PrimitiveArray<T>,
    right: &PrimitiveArray<T>,
    op: F,
) -> (r: Result<PrimitiveArray<T>>) where
    T: ArrowNumericType,
    F: Fn(Simd<T>, Simd<T>) -> Simd<T>,

    requires
        left@.len() == right@.len() ==> simd_op_defined(left@, right@, op),
    ensures
        match r {
            Ok(c) => {
                &&& left@.len() == right@.len()
                &&& simd_op_applied(left@, right@, op, c@)
                &&& c.owns_storage()
                &&& c.has_null_bitmap() == (left.has_null_bitmap() || right.has_null_bitmap())
            },
            Err(e) => left@.len() != right@.len() && e.is_length_mismatch(),
        },
{
    if left.len() != right.len() {
        return Err(length_mismatch());
    }
    let null_bitmap = combine_option_bitmap(left, right);
    let lanes = T::lanes();
    let len = left.len();
    let mut values: Vec<T::Native> = Vec::with_capacity(len);
    let mut i: usize = 0;
    proof {
        T::lanes_is_positive();
    }
    while i < len
        invariant
            i <= len,
            len == left@.len(),
            len == right@.len(),
            lanes == T::lanes_spec(),
            lanes > 0,
            i < len ==> register_start::<T>(i as int, len as int),
            simd_op_defined(left@, right@, op),
            values@.len() == i,
            forall|start: int|
                #![trigger register_start::<T>(start, len as int)]
                register_start::<T>(start, len as int) && start < i ==> register_applied(
                    left@,
                    right@,
                    op,
                    values@,
                    start,
                ) && register_end::<T>(start, len as int) <= i,
        decreases len - i,
    {
        let count: usize = if lanes < len - i { lanes } else { len - i };
        let simd_left = Simd::load(left, i);
        let simd_right = Simd::load(right, i);
        let ghost x = simd_left;
        let ghost y = simd_right;
        assert(operands_at(left@, right@, i as int, x, y));
        let simd_result = op(simd_left, simd_right);
        let ghost before = values@;
        simd_result.write(&mut values, count);
        proof {
            assert forall|start: int|
                #![trigger register_start::<T>(start, len as int)]
                register_start::<T>(start, len as int) && start < i
                    + count implies register_applied(left@, right@, op, values@, start)
                && register_end::<T>(start, len as int) <= i + count by {
                let end = register_end::<T>(start, len as int);
                if start < i {
                    let (p, q, z) = choose|p: Simd<T>, q: Simd<T>, z: Simd<T>| #[trigger]
                        register_from(left@, right@, op, before, start, p, q, z);
                    assert(values@.subrange(start, end) =~= before.subrange(start, end));
                    assert(register_from(left@, right@, op, values@, start, p, q, z));
                } else {
                    if i < start {
                        lemma_registers_are_apart::<T>(i as int, start, len as int);
                    }
                    assert(values@.subrange(start, end) =~= simd_result@.take(end - start));
                    assert(register_from(left@, right@, op, values@, start, x, y, simd_result));
                }
            }
            if i + count < len {
                lemma_next_register::<T>(i as int, len as int);
            }
        }
        i += count;
    }
    let ghost computed = values@;
    let c = PrimitiveArray::from_parts(values, null_bitmap);
    assert(stored(c@) =~= computed);
    Ok(c)
}

/// Each quotient that is computed is representable. The registers are taken in order, null slots
/// are divided by one, and nothing is computed from the first register on that has a zero divisor
/// in a valid lane.
pub open spec fn simd_quotients_defined<T: ArrowNumericType>(
    left: Seq<Slot<T::Native>>,
    right: Seq<Slot<T::Native>>,
) -> bool where T::Native: Div<Output = T::Native> {
    forall|start: int, i: int|
        #![trigger register_start::<T>(start, left.len() as int), left[i]]
        register_start::<T>(start, left.len() as int) && start <= i < register_end::<T>(
            start,
            left.len() as int,
        ) && both_valid(left, right, i) && nonzero_below::<T>(
            left,
            right,
            register_end::<T>(start, left.len() as int),
        ) ==> left[i].value.div_req(right[i].value)
}

/// What slot `i` is divided by: the right value, or one if the slot is null.
pub open spec fn divisor_at<T: ArrowNumericType>(
    left: Seq<Slot<T::Native>>,
    right: Seq<Slot<T::Native>>,
    i: int,
) -> T::Native {
    if both_valid(left, right, i) {
        right[i].value
    } else {
        T::one_spec()
    }
}

/// Each slot of `out` holds what the division of the left value returned, and is valid where both
/// operands are.
pub open spec fn simd_division_applied<T: ArrowNumericType>(
    left: Seq<Slot<T::Native>>,
    right: Seq<Slot<T::Native>>,
    out: Seq<Slot<T::Native>>,
) -> bool where T::Native: Div<Output = T::Native> {
    &&& out.len() == left.len()
    &&& forall|i: int|
        0 <= i < out.len() ==> (#[trigger] out[i]).valid == both_valid(left, right, i)
            && call_ensures(
            <T::Native as Div>::div,
            (left[i].value, divisor_at::<T>(left, right, i)),
            out[i].value,
        )
}

/// Slot-wise quotients, with the left value divided by one beneath each null.
pub open spec fn simd_quotients<T: ArrowNumericType>(
    left: Seq<Slot<T::Native>>,
    right: Seq<Slot<T::Native>>,
) -> Seq<Slot<T::Native>> where T::Native: Div<Output = T::Native> {
    Seq::new(
        left.len(),
        |i: int|
            Slot {
                value: left[i].value.div_spec(divisor_at::<T>(left, right, i)),
                valid: both_valid(left, right, i),
            },
    )
}

/// Vectorized version of `math_divide`. Null slots and the lanes past the end of the arrays are
/// divided by one, so that no zero stored there counts as a division by zero.
///
/// # Errors
///
/// Fails if the arrays have different lengths, or if a division by zero is found.
pub fn simd_divide<T>(
    left: &PrimitiveArray<T>,
    right: &PrimitiveArray<T>,
) -> (r: Result<PrimitiveArray<T>>) where
    T: ArrowNumericType,
    T::Native: Div<Output = T::Native>,

    requires
        left@.len() == right@.len() ==> simd_quotients_defined::<T>(left@, right@),
    ensures
        match r {
            Ok(c) => {
                &&& left@.len() == right@.len()
                &&& !divides_by_zero::<T>(left@, right@)
                &&& simd_division_applied::<T>(left@, right@, c@)
                &&& T::Native::obeys_div_spec() ==> c@ == simd_quotients::<T>(left@, right@)
                &&& c.owns_storage()
                &&& c.has_null_bitmap() == (left.has_null_bitmap() || right.has_null_bitmap())
            },
            Err(ArrowError::DivideByZero) => left@.len() == right@.len() && divides_by_zero::<T>(
                left@,
                right@,
            ),
            Err(e) => left@.len() != right@.len() && e.is_length_mismatch(),
        },
{
    if left.len() != right.len() {
        return Err(length_mismatch());
    }
    let null_bitmap = combine_option_bitmap(left, right);
    let lanes = T::lanes();
    let len = left.len();
    let mut values: Vec<T::Native> = Vec::with_capacity(len);
    let mut i: usize = 0;
    proof {
        T::lanes_is_positive();
    }
    while i < len
        invariant
            i <= len,
            len == left@.len(),
            len == right@.len(),
            lanes == T::lanes_spec(),
            lanes > 0,
            i < len ==> register_start::<T>(i as int, len as int),
            simd_quotients_defined::<T>(left@, right@),
            nonzero_below::<T>(left@, right@, i as int),
            null_bitmap is Some ==> len <= null_bitmap->Some_0@.len(),
            forall|k: int|
                0 <= k < len ==> #[trigger] both_valid(left@, right@, k) == (null_bitmap is Some
                    ==> null_bitmap->Some_0@[k]),
            values@.len() == i,
            forall|k: int|
                0 <= k < i ==> call_ensures(
                    <T::Native as Div>::div,
                    (left@[k].value, divisor_at::<T>(left@, right@, k)),
                    #[trigger] values@[k],
                ),
        decreases len - i,
    {
        let count: usize = if lanes < len - i { lanes } else { len - i };
        let divisors = Simd::load_set_invalid(right, &null_bitmap, i, T::one());
        assert(divisors@ =~= divisor_register::<T>(left@, right@, i as int));
        let is_zero = Simd::<T>::init(T::zero()).eq(&divisors);
        let any_zero = mask_any(&is_zero);
        proof {
            T::one_is_not_zero();
            assert forall|j: int| 0 <= j < lanes implies #[trigger] is_zero@[j]
                == T::is_zero_spec(divisors@[j]) by {
                T::zero_test_is_comparison(divisors@[j]);
            }
        }
        if any_zero {
            proof {
                let j = choose|j: int| 0 <= j < is_zero@.len() && #[trigger] is_zero@[j];
                assert(T::is_zero_spec(divisors@[j]));
                assert(both_valid(left@, right@, i + j) && T::is_zero_spec(right@[i + j].value));
            }
            return Err(ArrowError::DivideByZero);
        }
        assert forall|k: int|
            0 <= k < i + count && both_valid(left@, right@, k) implies !T::is_zero_spec(
            (#[trigger] right@[k]).value,
        ) by {
            if k >= i {
                assert(!is_zero@[k - i]);
                assert(divisors@[k - i] == right@[k].value);
            }
        }
        let dividends = Simd::load(left, i);
        let ghost before = values@;
        proof {
            assert forall|j: int|
                #![trigger dividends@[j], divisors@[j]]
                0 <= j < lanes implies dividends@[j].div_req(divisors@[j]) by {
                T::one_divides(dividends@[j]);
                if i + j < len && both_valid(left@, right@, i + j) {
                    assert(left@[i + j].value.div_req(right@[i + j].value));
                }
            }
        }
        let quotients = dividends.bin_op(&divisors, <T::Native as Div>::div);
        quotients.write(&mut values, count);
        proof {
            assert forall|k: int| 0 <= k < i + count implies call_ensures(
                <T::Native as Div>::div,
                (left@[k].value, divisor_at::<T>(left@, right@, k)),
                #[trigger] values@[k],
            ) by {
                if k < i {
                    assert(values@[k] == before[k]);
                } else {
                    assert(values@[k] == quotients@[k - i]);
                }
            }
            if i + count < len {
                lemma_next_register::<T>(i as int, len as int);
            }
        }
        i += count;
    }
    Ok(PrimitiveArray::from_parts(values, null_bitmap))
}

} // verus!
