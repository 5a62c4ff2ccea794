//! What each operation gives, in terms of what goes in and what comes out alone.

use vstd::prelude::*;
use vstd::std_specs::ops::{AddSpec, DivSpec, MulSpec, SubSpec};

use crate::arithmetic::{divide, math_divide, math_op, multiply, subtract};
use crate::array::{contents, stored, PrimitiveArray};
use crate::bitmap::Bitmap;
use crate::datatypes::{ArrowNumericType, ArrowPrimitiveType};
use crate::error::Result;
use crate::integer::{truncation_leaves_remainder, ArrowIntegerType, NativeInteger};
use crate::simd::Simd;
use crate::vectorized::{
    register_applied, register_end, register_from, register_start, simd_divide, simd_math_op,
};

verus! {

/// `add` succeeds exactly on arrays of one length. A slot of the result is null exactly where a
/// slot of an operand is, and stores the sum of the two integers wherever that is representable.
/// Where each sum is, `add` may be called.
pub proof fn add_adds_integers<T: ArrowIntegerType>(
    left: &PrimitiveArray<T>,
    right: &PrimitiveArray<T>,
    r: Result<PrimitiveArray<T>>,
) where T::Native: NativeInteger
    requires
        call_ensures(crate::arithmetic::add::<T>, (left, right), r),
    ensures
        (left@.len() == right@.len() ==> forall|i: int|
            #![trigger left@[i], right@[i]]
            0 <= i < left@.len() ==> T::Native::representable(
                left@[i].value.as_int() + right@[i].value.as_int(),
            )) ==> call_requires(crate::arithmetic::add::<T>, (left, right)),
        r is Ok <==> left@.len() == right@.len(),
        left@.len() != right@.len() ==> r is Err && r->Err_0 is ComputeError
            && r->Err_0->ComputeError_0@
            == "Cannot perform math operation on arrays of different length"@,
        r is Ok ==> r->Ok_0.has_null_bitmap() == (left.has_null_bitmap()
            || right.has_null_bitmap()),
        r is Ok ==> r->Ok_0@.len() == left@.len(),
        r is Ok ==> forall|i: int|
            0 <= i < left@.len() ==> (#[trigger] r->Ok_0@[i]).valid == (left@[i].valid
                && right@[i].valid),
        r is Ok ==> forall|i: int|
            #![trigger r->Ok_0@[i]]
            0 <= i < left@.len() && T::Native::representable(
                left@[i].value.as_int() + right@[i].value.as_int(),
            ) ==> r->Ok_0@[i].value.as_int() == left@[i].value.as_int()
                + right@[i].value.as_int(),
{
    assert forall|a: T::Native, b: T::Native|
        #![trigger a.add_req(b)]
        #![trigger a.add_spec(b)]
        T::Native::representable(a.as_int() + b.as_int()) implies a.add_req(b)
        && a.add_spec(b).as_int() == a.as_int() + b.as_int() by {
        T::Native::operators_are_exact(a, b);
    }
    T::Native::operators_are_exact(T::one_spec(), T::one_spec());
}

/// `subtract` succeeds exactly on arrays of one length. A slot of the result is null exactly where
/// a slot of an operand is, and stores the difference of the two integers wherever that is
/// representable. Where each difference is, `subtract` may be called.
pub proof fn subtract_subtracts_integers<T: ArrowIntegerType>(
    left: &PrimitiveArray<T>,
    right: &PrimitiveArray<T>,
    r: Result<PrimitiveArray<T>>,
) where T::Native: NativeInteger
    requires
        call_ensures(subtract::<T>, (left, right), r),
    ensures
        (left@.len() == right@.len() ==> forall|i: int|
            #![trigger left@[i], right@[i]]
            0 <= i < left@.len() ==> T::Native::representable(
                left@[i].value.as_int() - right@[i].value.as_int(),
            )) ==> call_requires(subtract::<T>, (left, right)),
        r is Ok <==> left@.len() == right@.len(),
        left@.len() != right@.len() ==> r is Err && r->Err_0 is ComputeError
            && r->Err_0->ComputeError_0@
            == "Cannot perform math operation on arrays of different length"@,
        r is Ok ==> r->Ok_0.has_null_bitmap() == (left.has_null_bitmap()
            || right.has_null_bitmap()),
        r is Ok ==> r->Ok_0@.len() == left@.len(),
        r is Ok ==> forall|i: int|
            0 <= i < left@.len() ==> (#[trigger] r->Ok_0@[i]).valid == (left@[i].valid
                && right@[i].valid),
        r is Ok ==> forall|i: int|
            #![trigger r->Ok_0@[i]]
            0 <= i < left@.len() && T::Native::representable(
                left@[i].value.as_int() - right@[i].value.as_int(),
            ) ==> r->Ok_0@[i].value.as_int() == left@[i].value.as_int()
                - right@[i].value.as_int(),
{
    assert forall|a: T::Native, b: T::Native|
        #![trigger a.sub_req(b)]
        #![trigger a.sub_spec(b)]
        T::Native::representable(a.as_int() - b.as_int()) implies a.sub_req(b)
        && a.sub_spec(b).as_int() == a.as_int() - b.as_int() by {
        T::Native::operators_are_exact(a, b);
    }
    T::Native::operators_are_exact(T::one_spec(), T::one_spec());
}

/// `multiply` succeeds exactly on arrays of one length. A slot of the result is null exactly where
/// a slot of an operand is, and stores the product of the two integers wherever that is
/// representable. Where each product is, `multiply` may be called.
pub proof fn multiply_multiplies_integers<T: ArrowIntegerType>(
    left: &PrimitiveArray<T>,
    right: &PrimitiveArray<T>,
    r: Result<PrimitiveArray<T>>,
) where T::Native: NativeInteger
    requires
        call_ensures(multiply::<T>, (left, right), r),
    ensures
        (left@.len() == right@.len() ==> forall|i: int|
            #![trigger left@[i], right@[i]]
            0 <= i < left@.len() ==> T::Native::representable(
                left@[i].value.as_int() * right@[i].value.as_int(),
            )) ==> call_requires(multiply::<T>, (left, right)),
        r is Ok <==> left@.len() == right@.len(),
        left@.len() != right@.len() ==> r is Err && r->Err_0 is ComputeError
            && r->Err_0->ComputeError_0@
            == "Cannot perform math operation on arrays of different length"@,
        r is Ok ==> r->Ok_0.has_null_bitmap() == (left.has_null_bitmap()
            || right.has_null_bitmap()),
        r is Ok ==> r->Ok_0@.len() == left@.len(),
        r is Ok ==> forall|i: int|
            0 <= i < left@.len() ==> (#[trigger] r->Ok_0@[i]).valid == (left@[i].valid
                && right@[i].valid),
        r is Ok ==> forall|i: int|
            #![trigger r->Ok_0@[i]]
            0 <= i < left@.len() && T::Native::representable(
                left@[i].value.as_int() * right@[i].value.as_int(),
            ) ==> r->Ok_0@[i].value.as_int() == left@[i].value.as_int()
                * right@[i].value.as_int(),
{
    assert forall|a: T::Native, b: T::Native|
        #![trigger a.mul_req(b)]
        #![trigger a.mul_spec(b)]
        T::Native::representable(a.as_int() * b.as_int()) implies a.mul_req(b)
        && a.mul_spec(b).as_int() == a.as_int() * b.as_int() by {
        T::Native::operators_are_exact(a, b);
    }
    T::Native::operators_are_exact(T::one_spec(), T::one_spec());
}

/// What the division of two valid slots gives, and what is zero.
proof fn lemma_integer_quotients<T: ArrowIntegerType>() where T::Native: NativeInteger
    ensures
        T::Native::obeys_div_spec(),
        T::default_spec().as_int() == 0,
        forall|x: T::Native| T::is_zero_spec(x) == (#[trigger] x.as_int() == 0),
        forall|a: T::Native| (#[trigger] a.div_spec(T::one_spec())).as_int() == a.as_int(),
        forall|a: T::Native, b: T::Native|
            b.as_int() != 0 && (b.as_int() == -1 ==> T::Native::representable(-a.as_int()))
                ==> #[trigger] a.div_req(b),
        forall|a: T::Native, b: T::Native|
            #![trigger a.div_spec(b)]
            a.div_req(b) ==> {
                let rest = a.as_int() - a.div_spec(b).as_int() * b.as_int();
                &&& -b.as_int() < rest < b.as_int() || b.as_int() < rest < -b.as_int()
                &&& a.as_int() >= 0 ==> rest >= 0
                &&& a.as_int() <= 0 ==> rest <= 0
            },
{
    T::identities_are_exact(T::one_spec());
    T::Native::operators_are_exact(T::one_spec(), T::one_spec());
    assert forall|x: T::Native| T::is_zero_spec(x) == (#[trigger] x.as_int() == 0) by {
        T::identities_are_exact(x);
    }
    assert forall|a: T::Native| (#[trigger] a.div_spec(T::one_spec())).as_int()
        == a.as_int() by {
        T::Native::operators_are_exact(a, T::one_spec());
        truncation_leaves_remainder(a.as_int(), 1);
    }
    assert forall|a: T::Native, b: T::Native|
        b.as_int() != 0 && (b.as_int() == -1 ==> T::Native::representable(
            -a.as_int(),
        )) implies #[trigger] a.div_req(b) by {
        T::Native::operators_are_exact(a, b);
    }
    assert forall|a: T::Native, b: T::Native|
        #![trigger a.div_spec(b)]
        a.div_req(b) implies {
        let rest = a.as_int() - a.div_spec(b).as_int() * b.as_int();
        &&& -b.as_int() < rest < b.as_int() || b.as_int() < rest < -b.as_int()
        &&& a.as_int() >= 0 ==> rest >= 0
        &&& a.as_int() <= 0 ==> rest <= 0
    } by {
        T::Native::operators_are_exact(a, b);
        truncation_leaves_remainder(a.as_int(), b.as_int());
    }
}

/// On arrays of one length `divide` fails exactly where a value on the right is zero, whatever
/// stands opposite it, and with `DivideByZero`. A slot of the result is null exactly where a slot
/// of an operand is; otherwise what the quotient leaves of the left integer is smaller than the
/// right one, and has the sign of the left. Beneath a null zero is stored. It may be called where
/// a value on the right is zero, or where no quotient by minus one falls outside what is
/// representable.
pub proof fn divide_divides_integers<T: ArrowIntegerType>(
    left: &PrimitiveArray<T>,
    right: &PrimitiveArray<T>,
    r: Result<PrimitiveArray<T>>,
) where T::Native: NativeInteger
    requires
        call_ensures(divide::<T>, (left, right), r),
    ensures
        (left@.len() == right@.len() && (forall|j: int|
            0 <= j < right@.len() && (#[trigger] right@[j]).valid ==> right@[j].value.as_int()
                != 0) ==> forall|i: int|
            #![trigger left@[i], right@[i]]
            0 <= i < left@.len() && left@[i].valid && right@[i].valid
                && right@[i].value.as_int() == -1 ==> T::Native::representable(
                -left@[i].value.as_int(),
            )) ==> call_requires(divide::<T>, (left, right)),
        left@.len() != right@.len() ==> r is Err && r->Err_0 is ComputeError
            && r->Err_0->ComputeError_0@
            == "Cannot perform math operation on arrays of different length"@,
        left@.len() == right@.len() ==> (r is Err <==> exists|i: int|
            0 <= i < right@.len() && right@[i].valid && (#[trigger] right@[i]).value.as_int()
                == 0),
        left@.len() == right@.len() && r is Err ==> r->Err_0 is DivideByZero,
        r is Ok ==> r->Ok_0.has_null_bitmap() == (left.has_null_bitmap()
            || right.has_null_bitmap()),
        r is Ok ==> r->Ok_0@.len() == left@.len(),
        r is Ok ==> forall|i: int|
            0 <= i < left@.len() ==> (#[trigger] r->Ok_0@[i]).valid == (left@[i].valid
                && right@[i].valid),
        r is Ok ==> forall|i: int|
            #![trigger r->Ok_0@[i]]
            0 <= i < left@.len() && left@[i].valid && right@[i].valid && (
            right@[i].value.as_int() == -1 ==> T::Native::representable(
                -left@[i].value.as_int(),
            )) ==> {
                let a = left@[i].value.as_int();
                let b = right@[i].value.as_int();
                let rest = a - r->Ok_0@[i].value.as_int() * b;
                &&& -b < rest < b || b < rest < -b
                &&& a >= 0 ==> rest >= 0
                &&& a <= 0 ==> rest <= 0
            },
        r is Ok ==> forall|i: int|
            0 <= i < left@.len() && !(left@[i].valid && right@[i].valid)
                ==> (#[trigger] r->Ok_0@[i]).value.as_int() == 0,
{
    lemma_integer_quotients::<T>();
}

/// On arrays of one length `math_divide` fails exactly where a slot that is valid on both sides
/// has zero on the right, and with `DivideByZero`. A slot of the result is null exactly where a
/// slot of an operand is; otherwise what the quotient leaves of the left integer is smaller than
/// the right one, and has the sign of the left. Beneath a null zero is stored. It may be called
/// where no quotient by minus one falls outside what is representable before the first division by
/// zero.
pub proof fn math_divide_divides_integers<T: ArrowIntegerType>(
    left: &PrimitiveArray<T>,
    right: &PrimitiveArray<T>,
    r: Result<PrimitiveArray<T>>,
) where T::Native: NativeInteger
    requires
        call_ensures(math_divide::<T>, (left, right), r),
    ensures
        (left@.len() == right@.len() ==> forall|i: int|
            #![trigger left@[i], right@[i]]
            0 <= i < left@.len() && left@[i].valid && right@[i].valid
                && right@[i].value.as_int() == -1 && (forall|j: int|
                #![trigger right@[j]]
                0 <= j < i && left@[j].valid && right@[j].valid ==> right@[j].value.as_int()
                    != 0) ==> T::Native::representable(
                -left@[i].value.as_int(),
            )) ==> call_requires(math_divide::<T>, (left, right)),
        left@.len() != right@.len() ==> r is Err && r->Err_0 is ComputeError
            && r->Err_0->ComputeError_0@
            == "Cannot perform math operation on arrays of different length"@,
        left@.len() == right@.len() ==> (r is Err <==> exists|i: int|
            0 <= i < right@.len() && left@[i].valid && right@[i].valid
                && (#[trigger] right@[i]).value.as_int() == 0),
        left@.len() == right@.len() && r is Err ==> r->Err_0 is DivideByZero,
        r is Ok ==> r->Ok_0.has_null_bitmap() == (left.has_null_bitmap()
            || right.has_null_bitmap()),
        r is Ok ==> r->Ok_0@.len() == left@.len(),
        r is Ok ==> forall|i: int|
            0 <= i < left@.len() ==> (#[trigger] r->Ok_0@[i]).valid == (left@[i].valid
                && right@[i].valid),
        r is Ok ==> forall|i: int|
            #![trigger r->Ok_0@[i]]
            0 <= i < left@.len() && left@[i].valid && right@[i].valid && (
            right@[i].value.as_int() == -1 ==> T::Native::representable(
                -left@[i].value.as_int(),
            )) ==> {
                let a = left@[i].value.as_int();
                let b = right@[i].value.as_int();
                let rest = a - r->Ok_0@[i].value.as_int() * b;
                &&& -b < rest < b || b < rest < -b
                &&& a >= 0 ==> rest >= 0
                &&& a <= 0 ==> rest <= 0
            },
        r is Ok ==> forall|i: int|
            0 <= i < left@.len() && !(left@[i].valid && right@[i].valid)
                ==> (#[trigger] r->Ok_0@[i]).value.as_int() == 0,
{
    lemma_integer_quotients::<T>();
}

/// On arrays of one length `simd_divide` fails exactly where a slot that is valid on both sides
/// has zero on the right, and with `DivideByZero`. A slot of the result is null exactly where a
/// slot of an operand is; otherwise what the quotient leaves of the left integer is smaller than
/// the right one, and has the sign of the left. Beneath a null the left integer is stored. It may
/// be called where no quotient by minus one falls outside what is representable.
pub proof fn simd_divide_divides_integers<T: ArrowIntegerType>(
    left: &PrimitiveArray<T>,
    right: &PrimitiveArray<T>,
    r: Result<PrimitiveArray<T>>,
) where T::Native: NativeInteger
    requires
        call_ensures(simd_divide::<T>, (left, right), r),
    ensures
        (left@.len() == right@.len() ==> forall|i: int|
            #![trigger left@[i], right@[i]]
            0 <= i < left@.len() && left@[i].valid && right@[i].valid
                && right@[i].value.as_int() == -1 ==> T::Native::representable(
                -left@[i].value.as_int(),
            )) ==> call_requires(simd_divide::<T>, (left, right)),
        left@.len() != right@.len() ==> r is Err && r->Err_0 is ComputeError
            && r->Err_0->ComputeError_0@
            == "Cannot perform math operation on arrays of different length"@,
        left@.len() == right@.len() ==> (r is Err <==> exists|i: int|
            0 <= i < right@.len() && left@[i].valid && right@[i].valid
                && (#[trigger] right@[i]).value.as_int() == 0),
        left@.len() == right@.len() && r is Err ==> r->Err_0 is DivideByZero,
        r is Ok ==> r->Ok_0.has_null_bitmap() == (left.has_null_bitmap()
            || right.has_null_bitmap()),
        r is Ok ==> r->Ok_0@.len() == left@.len(),
        r is Ok ==> forall|i: int|
            0 <= i < left@.len() ==> (#[trigger] r->Ok_0@[i]).valid == (left@[i].valid
                && right@[i].valid),
        r is Ok ==> forall|i: int|
            #![trigger r->Ok_0@[i]]
            0 <= i < left@.len() && left@[i].valid && right@[i].valid && (
            right@[i].value.as_int() == -1 ==> T::Native::representable(
                -left@[i].value.as_int(),
            )) ==> {
                let a = left@[i].value.as_int();
                let b = right@[i].value.as_int();
                let rest = a - r->Ok_0@[i].value.as_int() * b;
                &&& -b < rest < b || b < rest < -b
                &&& a >= 0 ==> rest >= 0
                &&& a <= 0 ==> rest <= 0
            },
        r is Ok ==> forall|i: int|
            0 <= i < left@.len() && !(left@[i].valid && right@[i].valid)
                ==> (#[trigger] r->Ok_0@[i]).value.as_int() == left@[i].value.as_int(),
{
    lemma_integer_quotients::<T>();
}

/// Where the operation may be called on each pair of stored values, `math_op` may be called. It
/// succeeds exactly on arrays of one length. A slot of the result is null exactly where a slot of
/// an operand is, and stores what the operation returned for the pair.
pub proof fn math_op_applies_the_operation<T, F>(
    left: &PrimitiveArray<T>,
    right: &PrimitiveArray<T>,
    op: F,
    r: Result<PrimitiveArray<T>>,
) where T: ArrowNumericType, F: Fn(T::Native, T::Native) -> T::Native
    requires
        call_ensures(math_op::<T, F>, (left, right, op), r),
    ensures
        (left@.len() == right@.len() ==> forall|i: int|
            #![trigger left@[i], right@[i]]
            0 <= i < left@.len() ==> call_requires(op, (left@[i].value, right@[i].value)))
            ==> call_requires(math_op::<T, F>, (left, right, op)),
        r is Ok <==> left@.len() == right@.len(),
        r is Err ==> r->Err_0 is ComputeError && r->Err_0->ComputeError_0@
            == "Cannot perform math operation on arrays of different length"@,
        r is Ok ==> r->Ok_0.has_null_bitmap() == (left.has_null_bitmap()
            || right.has_null_bitmap()),
        r is Ok ==> r->Ok_0@.len() == left@.len(),
        r is Ok ==> forall|i: int|
            0 <= i < left@.len() ==> (#[trigger] r->Ok_0@[i]).valid == (left@[i].valid
                && right@[i].valid),
        r is Ok ==> forall|i: int|
            0 <= i < left@.len() ==> call_ensures(
                op,
                (left@[i].value, right@[i].value),
                (#[trigger] r->Ok_0@[i]).value,
            ),
{
}

/// Where the operation may be called on any registers, `simd_math_op` may be called. It succeeds
/// exactly on arrays of one length. A slot of the result is null exactly where a slot of an operand
/// is. The slots are taken in runs of `T::lanes()`: one result of the operation, for registers that
/// hold the two runs, gives what all the slots of a run store.
pub proof fn simd_math_op_applies_the_operation<T, G>(
    left: &PrimitiveArray<T>,
    right: &PrimitiveArray<T>,
    op: G,
    r: Result<PrimitiveArray<T>>,
    start: int,
) where T: ArrowNumericType, G: Fn(Simd<T>, Simd<T>) -> Simd<T>
    requires
        call_ensures(simd_math_op::<T, G>, (left, right, op), r),
    ensures
        (left@.len() == right@.len() ==> forall|x: Simd<T>, y: Simd<T>|
            call_requires(op, (x, y))) ==> call_requires(
            simd_math_op::<T, G>,
            (left, right, op),
        ),
        r is Ok <==> left@.len() == right@.len(),
        r is Err ==> r->Err_0 is ComputeError && r->Err_0->ComputeError_0@
            == "Cannot perform math operation on arrays of different length"@,
        r is Ok ==> r->Ok_0.has_null_bitmap() == (left.has_null_bitmap()
            || right.has_null_bitmap()),
        r is Ok ==> r->Ok_0@.len() == left@.len(),
        r is Ok ==> forall|i: int|
            0 <= i < left@.len() ==> (#[trigger] r->Ok_0@[i]).valid == (left@[i].valid
                && right@[i].valid),
        r is Ok && 0 <= start < left@.len() && start % (T::lanes_spec() as int) == 0 ==> exists|
            x: Simd<T>,
            y: Simd<T>,
            z: Simd<T>,
        |
            #![trigger call_ensures(op, (x, y), z)]
            call_ensures(op, (x, y), z) && (forall|j: int|
                #![trigger z@[j]]
                0 <= j < T::lanes_spec() && start + j < left@.len() ==> x@[j]
                    == left@[start + j].value && y@[j] == right@[start + j].value
                    && r->Ok_0@[start + j].value == z@[j]),
{
    let len = left@.len() as int;
    if r is Ok && 0 <= start < len && start % (T::lanes_spec() as int) == 0 {
        let c = r->Ok_0@;
        assert(register_start::<T>(start, len));
        assert(register_applied(left@, right@, op, stored(c), start));
        let (x, y, z) = choose|x: Simd<T>, y: Simd<T>, z: Simd<T>| #[trigger]
            register_from(left@, right@, op, stored(c), start, x, y, z);
        let end = register_end::<T>(start, len);
        assert forall|j: int|
            #![trigger z@[j]]
            0 <= j < T::lanes_spec() && start + j < len implies x@[j] == left@[start + j].value
            && y@[j] == right@[start + j].value && c[start + j].value == z@[j] by {
            assert(stored(c).subrange(start, end)[j] == z@.take(end - start)[j]);
        }
        assert(call_ensures(op, (x, y), z));
    }
}

/// An array reads back the options that it was made of: as many slots, a null for each `None`, and
/// the value of each `Some`.
pub proof fn options_read_back<T: ArrowPrimitiveType>(
    options: Vec<Option<T::Native>>,
    a: PrimitiveArray<T>,
    len: usize,
    nullable: bool,
    i: usize,
    null: bool,
    valid: bool,
    value: T::Native,
)
    requires
        call_ensures(PrimitiveArray::<T>::from_options, (options,), a),
        call_ensures(PrimitiveArray::<T>::len, (&a,), len),
        call_ensures(PrimitiveArray::<T>::is_nullable, (&a,), nullable),
        i < options@.len(),
        call_ensures(PrimitiveArray::<T>::is_null, (&a, i), null),
        call_ensures(PrimitiveArray::<T>::is_valid, (&a, i), valid),
        call_ensures(PrimitiveArray::<T>::value, (&a, i), value),
    ensures
        len == options@.len(),
        nullable,
        null == (options@[i as int] is None),
        valid == !null,
        options@[i as int] matches Some(v) ==> value == v,
        null ==> value == T::default_spec(),
        a@.len() == len,
        a@[i as int].valid == valid,
        a@[i as int].value == value,
{
    assert(a@[i as int].content() == options@[i as int]);
}

/// An array reads back the values that it was made of, none of them null.
pub proof fn values_read_back<T: ArrowPrimitiveType>(
    values: Vec<T::Native>,
    a: PrimitiveArray<T>,
    len: usize,
    nullable: bool,
    i: usize,
    null: bool,
    valid: bool,
    value: T::Native,
)
    requires
        call_ensures(PrimitiveArray::<T>::from_values, (values,), a),
        call_ensures(PrimitiveArray::<T>::len, (&a,), len),
        call_ensures(PrimitiveArray::<T>::is_nullable, (&a,), nullable),
        i < values@.len(),
        call_ensures(PrimitiveArray::<T>::is_null, (&a, i), null),
        call_ensures(PrimitiveArray::<T>::is_valid, (&a, i), valid),
        call_ensures(PrimitiveArray::<T>::value, (&a, i), value),
    ensures
        len == values@.len(),
        !nullable,
        !null,
        valid,
        value == values@[i as int],
        a@.len() == len,
        a@[i as int].valid == valid,
        a@[i as int].value == value,
{
    assert(a@[i as int].valid);
}

/// Any array reads as its slots are, and is without nulls where it is not nullable.
pub proof fn slots_are_read<T: ArrowPrimitiveType>(
    a: &PrimitiveArray<T>,
    len: usize,
    nullable: bool,
    i: usize,
    null: bool,
    valid: bool,
    value: T::Native,
)
    requires
        call_ensures(PrimitiveArray::<T>::len, (a,), len),
        call_ensures(PrimitiveArray::<T>::is_nullable, (a,), nullable),
        i < len,
        call_ensures(PrimitiveArray::<T>::is_null, (a, i), null),
        call_ensures(PrimitiveArray::<T>::is_valid, (a, i), valid),
        call_ensures(PrimitiveArray::<T>::value, (a, i), value),
    ensures
        len == a@.len(),
        nullable == a.has_null_bitmap(),
        !nullable ==> valid,
        valid == a@[i as int].valid,
        null == !valid,
        value == a@[i as int].value,
        a@[i as int].content() is None <==> null,
        valid ==> a@[i as int].content() == Some(value),
        contents(a@).len() == len,
        contents(a@)[i as int] == a@[i as int].content(),
{
}

/// A slice has the length that was asked for, and its slot `i` reads as slot `offset + i` of the
/// array that it was taken from.
pub proof fn slices_read_the_window<T: ArrowPrimitiveType>(
    a: &PrimitiveArray<T>,
    whole: usize,
    offset: usize,
    len: usize,
    s: PrimitiveArray<T>,
    slice_len: usize,
    i: usize,
    at: usize,
    null: bool,
    null_there: bool,
    value: T::Native,
    value_there: T::Native,
)
    requires
        call_ensures(PrimitiveArray::<T>::len, (a,), whole),
        offset + len <= whole,
        call_ensures(PrimitiveArray::<T>::slice, (a, offset, len), s),
        call_ensures(PrimitiveArray::<T>::len, (&s,), slice_len),
        i < len,
        at == offset + i,
        call_ensures(PrimitiveArray::<T>::is_null, (&s, i), null),
        call_ensures(PrimitiveArray::<T>::is_null, (a, at), null_there),
        call_ensures(PrimitiveArray::<T>::value, (&s, i), value),
        call_ensures(PrimitiveArray::<T>::value, (a, at), value_there),
    ensures
        call_requires(PrimitiveArray::<T>::slice, (a, offset, len)),
        slice_len == len,
        null == null_there,
        value == value_there,
        s.has_null_bitmap() == a.has_null_bitmap(),
{
}

/// A register that was loaded holds the values of the slots from `start` on, as far as the array
/// goes, and past its end the first of them.
pub proof fn registers_hold_the_slots<T: ArrowNumericType>(
    a: &PrimitiveArray<T>,
    start: usize,
    x: Simd<T>,
    len: usize,
    lanes: usize,
)
    requires
        start < a@.len(),
        call_ensures(Simd::<T>::load, (a, start), x),
        call_ensures(Simd::<T>::len, (&x,), len),
        call_ensures(T::lanes, (), lanes),
    ensures
        call_requires(Simd::<T>::load, (a, start)),
        len == lanes,
        x@.len() == lanes,
        forall|j: int|
            0 <= j < lanes && start + j < a@.len() ==> #[trigger] x@[j] == a@[start + j].value,
        forall|j: int|
            0 <= j < lanes && start + j >= a@.len() ==> #[trigger] x@[j]
                == a@[start as int].value,
{
}

/// A register made of one value holds it in each lane.
pub proof fn registers_repeat_a_value<T: ArrowNumericType>(
    value: T::Native,
    x: Simd<T>,
    lanes: usize,
)
    requires
        call_ensures(Simd::<T>::init, (value,), x),
        call_ensures(T::lanes, (), lanes),
    ensures
        x@.len() == lanes,
        forall|j: int| 0 <= j < lanes ==> #[trigger] x@[j] == value,
{
}

/// A comparison of registers of integers sets the lanes in which both hold one integer.
pub proof fn registers_compare_integers<T: ArrowIntegerType>(
    x: &Simd<T>,
    y: &Simd<T>,
    mask: Vec<bool>,
    lanes: usize,
) where T::Native: NativeInteger
    requires
        call_ensures(Simd::<T>::eq, (x, y), mask),
        call_ensures(T::lanes, (), lanes),
    ensures
        mask@.len() == lanes,
        forall|j: int|
            0 <= j < lanes ==> #[trigger] mask@[j] == (x@[j].as_int() == y@[j].as_int()),
{
    assert forall|j: int| 0 <= j < lanes implies #[trigger] mask@[j] == (x@[j].as_int()
        == y@[j].as_int()) by {
        T::comparison_is_exact(x@[j], y@[j]);
    }
}

/// The identities of an integer type are the integers 0 and 1, its default value is 0, and its
/// tests are those of integers.
pub proof fn integer_types_have_integer_identities<T: ArrowIntegerType>(
    default: T::Native,
    zero: T::Native,
    one: T::Native,
    a: T::Native,
    b: T::Native,
    is_zero: bool,
    equal: bool,
) where T::Native: NativeInteger
    requires
        call_ensures(T::default_value, (), default),
        call_ensures(T::zero, (), zero),
        call_ensures(T::one, (), one),
        call_ensures(T::is_zero, (&a,), is_zero),
        call_ensures(T::eq, (&a, &b), equal),
    ensures
        default.as_int() == 0,
        zero.as_int() == 0,
        one.as_int() == 1,
        is_zero == (a.as_int() == 0),
        equal == (a.as_int() == b.as_int()),
{
    T::identities_are_exact(a);
    T::comparison_is_exact(a, b);
}

/// An operation on registers gives in each lane what the operation returned for the two lanes.
pub proof fn registers_combine_by_lanes<T, F>(
    x: &Simd<T>,
    y: &Simd<T>,
    op: F,
    z: Simd<T>,
    lanes: usize,
) where T: ArrowNumericType, F: Fn(T::Native, T::Native) -> T::Native
    requires
        forall|j: int|
            #![trigger x@[j], y@[j]]
            0 <= j < lanes ==> call_requires(op, (x@[j], y@[j])),
        call_ensures(Simd::<T>::bin_op::<F>, (x, y, op), z),
        call_ensures(T::lanes, (), lanes),
    ensures
        call_requires(Simd::<T>::bin_op::<F>, (x, y, op)),
        z@.len() == lanes,
        forall|j: int| 0 <= j < lanes ==> call_ensures(op, (x@[j], y@[j]), #[trigger] z@[j]),
{
}

/// A bitmap that was made for `len` bits has them, all clear, and reads as its bits are.
pub proof fn bits_are_read(len: usize, b: Bitmap, i: usize, clear: bool, c: &Bitmap, bit: bool)
    requires
        call_ensures(Bitmap::zeroed, (len,), b),
        i < len,
        call_ensures(Bitmap::get_bit, (&b, i), clear),
        i < c@.len(),
        call_ensures(Bitmap::get_bit, (c, i), bit),
    ensures
        call_requires(Bitmap::get_bit, (&b, i)),
        !clear,
        bit == c@[i as int],
{
}

/// Setting a bit sets that bit, and leaves every other bit and the number of bits as they were.
pub proof fn bits_are_set(b: &mut Bitmap, i: usize)
    requires
        i < b@.len(),
        call_ensures(Bitmap::set_bit, (b, i), ()),
    ensures
        final(b)@.len() == old(b)@.len(),
        forall|j: int|
            0 <= j < old(b)@.len() ==> #[trigger] final(b)@[j] == (j == i || old(b)@[j]),
{
}

} // verus!
