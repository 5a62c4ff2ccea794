//! Laws that relate the kernels to each other.

use std::ops::{Add, Div, Mul, Sub};
use vstd::arithmetic::div_mod::{
    lemma_fundamental_div_mod, lemma_mod_bound, lemma_mod_multiples_basic,
};
use vstd::prelude::*;
use vstd::std_specs::ops::{AddSpec, DivSpec, MulSpec, SubSpec};

use crate::arithmetic::{
    differences, differences_defined, divide, divides_by_zero, division_applied, holds_zero,
    math_divide, math_op, nonzero_below, op_applied, op_defined, products, products_defined,
    quotients, quotients_defined, sums, sums_defined,
};
use crate::array::{both_valid, contents, stored, PrimitiveArray, Slot};
use crate::datatypes::ArrowNumericType;
use crate::error::Result;
use crate::integer::{
    lemma_quotient_of_product, truncated_quotient, ArrowIntegerType, NativeInteger,
};
use crate::simd::Simd;
use crate::vectorized::{
    operands_at, register_applied, register_end, register_from, register_start, simd_divide,
    simd_division_applied, simd_math_op, simd_op_applied, simd_op_defined, simd_quotients,
    simd_quotients_defined,
};

verus! {

/// The contents of `left` where both sequences are valid, and null elsewhere.
pub open spec fn masked<N>(left: Seq<Slot<N>>, right: Seq<Slot<N>>) -> Seq<Option<N>> {
    Seq::new(
        left.len(),
        |i: int|
            if both_valid(left, right, i) {
                Some(left[i].value)
            } else {
                None
            },
    )
}

/// A slot of a sum, a difference or a product is null exactly where a slot of an operand is, and
/// the rest are the integer results.
pub proof fn results_are_integer_results<N: NativeInteger>(
    left: Seq<Slot<N>>,
    right: Seq<Slot<N>>,
    i: int,
)
    requires
        left.len() == right.len(),
        0 <= i < left.len(),
    ensures
        contents(sums(left, right))[i] is None <==> contents(left)[i] is None || contents(
            right,
        )[i] is None,
        contents(differences(left, right))[i] is None <==> contents(left)[i] is None || contents(
            right,
        )[i] is None,
        contents(products(left, right))[i] is None <==> contents(left)[i] is None || contents(
            right,
        )[i] is None,
        sums_defined(left, right) ==> sums(left, right)[i].value.as_int()
            == left[i].value.as_int() + right[i].value.as_int(),
        differences_defined(left, right) ==> differences(left, right)[i].value.as_int()
            == left[i].value.as_int() - right[i].value.as_int(),
        products_defined(left, right) ==> products(left, right)[i].value.as_int()
            == left[i].value.as_int() * right[i].value.as_int(),
{
    N::operators_are_exact(left[i].value, right[i].value);
}

/// A slot of a quotient is null exactly where a slot of an operand is, and the rest are the
/// integer quotients, rounded toward zero.
pub proof fn quotients_are_truncated<T: ArrowIntegerType>(
    left: Seq<Slot<T::Native>>,
    right: Seq<Slot<T::Native>>,
    i: int,
) where T::Native: NativeInteger
    requires
        left.len() == right.len(),
        quotients_defined::<T>(left, right),
        !divides_by_zero::<T>(left, right),
        0 <= i < left.len(),
    ensures
        contents(quotients::<T>(left, right))[i] is None <==> contents(left)[i] is None
            || contents(right)[i] is None,
        both_valid(left, right, i) ==> quotients::<T>(left, right)[i].value.as_int()
            == truncated_quotient(left[i].value.as_int(), right[i].value.as_int()),
{
    if both_valid(left, right, i) {
        assert(nonzero_below::<T>(left, right, i + 1));
        T::Native::operators_are_exact(left[i].value, right[i].value);
    }
}

/// The order of the operands of a sum does not matter.
pub proof fn sums_commute<N: NativeInteger>(left: Seq<Slot<N>>, right: Seq<Slot<N>>)
    requires
        left.len() == right.len(),
        sums_defined(left, right),
    ensures
        sums_defined(right, left),
        sums(left, right) == sums(right, left),
{
    assert forall|i: int|
        #![trigger left[i], right[i]]
        0 <= i < left.len() implies right[i].value.add_req(left[i].value) && left[i].value.add_spec(
        right[i].value,
    ) == right[i].value.add_spec(left[i].value) by {
        let (a, b) = (left[i].value, right[i].value);
        N::operators_are_exact(a, b);
        N::operators_are_exact(b, a);
        N::operators_are_exact(a.add_spec(b), b.add_spec(a));
    }
    assert(sums(left, right) =~= sums(right, left));
}

/// The order of the operands of a product does not matter.
pub proof fn products_commute<N: NativeInteger>(left: Seq<Slot<N>>, right: Seq<Slot<N>>)
    requires
        left.len() == right.len(),
        products_defined(left, right),
    ensures
        products_defined(right, left),
        products(left, right) == products(right, left),
{
    assert forall|i: int|
        #![trigger left[i], right[i]]
        0 <= i < left.len() implies right[i].value.mul_req(left[i].value) && left[i].value.mul_spec(
        right[i].value,
    ) == right[i].value.mul_spec(left[i].value) by {
        let (a, b) = (left[i].value, right[i].value);
        N::operators_are_exact(a, b);
        N::operators_are_exact(b, a);
        assert(a.as_int() * b.as_int() == b.as_int() * a.as_int()) by (nonlinear_arith);
        N::operators_are_exact(a.mul_spec(b), b.mul_spec(a));
    }
    assert(products(left, right) =~= products(right, left));
}

/// Subtracting what was added gives back the left operand, where neither operand is null.
pub proof fn subtract_undoes_add<N: NativeInteger>(left: Seq<Slot<N>>, right: Seq<Slot<N>>)
    requires
        left.len() == right.len(),
        sums_defined(left, right),
    ensures
        differences_defined(sums(left, right), right),
        contents(differences(sums(left, right), right)) == masked(left, right),
{
    let total = sums(left, right);
    assert forall|i: int|
        #![trigger total[i], right[i]]
        0 <= i < left.len() implies total[i].value.sub_req(right[i].value)
        && total[i].value.sub_spec(right[i].value) == left[i].value by {
        let (a, b) = (left[i].value, right[i].value);
        N::operators_are_exact(a, b);
        N::operators_are_exact(a.add_spec(b), b);
        N::operators_are_exact(a.add_spec(b).sub_spec(b), a);
    }
    assert(contents(differences(total, right)) =~= masked(left, right));
}

/// Adding what was subtracted gives back the left operand, where neither operand is null.
pub proof fn add_undoes_subtract<N: NativeInteger>(left: Seq<Slot<N>>, right: Seq<Slot<N>>)
    requires
        left.len() == right.len(),
        differences_defined(left, right),
    ensures
        sums_defined(differences(left, right), right),
        contents(sums(differences(left, right), right)) == masked(left, right),
{
    let rest = differences(left, right);
    assert forall|i: int|
        #![trigger rest[i], right[i]]
        0 <= i < left.len() implies rest[i].value.add_req(right[i].value)
        && rest[i].value.add_spec(right[i].value) == left[i].value by {
        let (a, b) = (left[i].value, right[i].value);
        N::operators_are_exact(a, b);
        N::operators_are_exact(a.sub_spec(b), b);
        N::operators_are_exact(a, a);
        N::operators_are_exact(a.sub_spec(b).add_spec(b), a);
    }
    assert(contents(sums(rest, right)) =~= masked(left, right));
}

/// Dividing by what was multiplied by gives back the left operand, where neither operand is
/// null, unless some value of the factor is zero.
pub proof fn divide_undoes_multiply<T: ArrowIntegerType>(
    left: Seq<Slot<T::Native>>,
    right: Seq<Slot<T::Native>>,
) where T::Native: NativeInteger
    requires
        left.len() == right.len(),
        products_defined(left, right),
    ensures
        quotients_defined::<T>(products(left, right), right),
        divides_by_zero::<T>(products(left, right), right) == divides_by_zero::<T>(left, right),
        divides_by_zero::<T>(left, right) ==> holds_zero::<T>(right),
        !divides_by_zero::<T>(left, right) ==> contents(
            quotients::<T>(products(left, right), right),
        ) == masked(left, right),
{
    let scaled = products(left, right);
    assert forall|i: int|
        #![trigger scaled[i], right[i]]
        0 <= i < left.len() && !T::is_zero_spec(right[i].value) implies scaled[i].value.div_req(
        right[i].value,
    ) && scaled[i].value.div_spec(right[i].value) == left[i].value by {
        let (a, b) = (left[i].value, right[i].value);
        T::identities_are_exact(b);
        T::Native::operators_are_exact(a, b);
        T::Native::operators_are_exact(a.mul_spec(b), b);
        lemma_quotient_of_product(a.as_int(), b.as_int());
        T::Native::operators_are_exact(a, a);
        T::Native::operators_are_exact(a.mul_spec(b).div_spec(b), a);
    }
    if divides_by_zero::<T>(left, right) {
        let i = choose|i: int|
            0 <= i < left.len() && both_valid(left, right, i) && T::is_zero_spec(
                (#[trigger] right[i]).value,
            );
        assert(both_valid(scaled, right, i) && T::is_zero_spec(right[i].value));
    } else {
        assert(contents(quotients::<T>(scaled, right)) =~= masked(left, right));
    }
}

/// `math_op` on two windows gives the window of what it gives on the whole arrays.
pub proof fn math_op_of_slices<N, F: Fn(N, N) -> N>(
    left: Seq<Slot<N>>,
    right: Seq<Slot<N>>,
    op: F,
    out: Seq<Slot<N>>,
    from: int,
    to: int,
)
    requires
        left.len() == right.len(),
        0 <= from <= to <= left.len(),
        op_defined(left, right, op),
        op_applied(left, right, op, out),
    ensures
        op_defined(left.subrange(from, to), right.subrange(from, to), op),
        op_applied(left.subrange(from, to), right.subrange(from, to), op, out.subrange(from, to)),
{
    let (l, r) = (left.subrange(from, to), right.subrange(from, to));
    assert forall|i: int|
        #![trigger l[i], r[i]]
        0 <= i < l.len() implies call_requires(op, (l[i].value, r[i].value)) by {
        assert(l[i] == left[from + i] && r[i] == right[from + i]);
    }
    let window = out.subrange(from, to);
    assert forall|i: int| 0 <= i < window.len() implies call_ensures(
        op,
        (left.subrange(from, to)[i].value, right.subrange(from, to)[i].value),
        (#[trigger] window[i]).value,
    ) && window[i].valid == both_valid(
        left.subrange(from, to),
        right.subrange(from, to),
        i,
    ) by {
        assert(window[i] == out[from + i]);
    }
}

/// Sums, differences and products of two windows are the windows of the sums, differences and
/// products, and may be computed wherever those may.
pub proof fn results_of_slices<
    N: Add<Output = N> + Sub<Output = N> + Mul<Output = N>,
>(left: Seq<Slot<N>>, right: Seq<Slot<N>>, from: int, to: int)
    requires
        left.len() == right.len(),
        0 <= from <= to <= left.len(),
    ensures
        sums(left.subrange(from, to), right.subrange(from, to)) == sums(left, right).subrange(
            from,
            to,
        ),
        differences(left.subrange(from, to), right.subrange(from, to)) == differences(
            left,
            right,
        ).subrange(from, to),
        products(left.subrange(from, to), right.subrange(from, to)) == products(
            left,
            right,
        ).subrange(from, to),
        sums_defined(left, right) ==> sums_defined(
            left.subrange(from, to),
            right.subrange(from, to),
        ),
        differences_defined(left, right) ==> differences_defined(
            left.subrange(from, to),
            right.subrange(from, to),
        ),
        products_defined(left, right) ==> products_defined(
            left.subrange(from, to),
            right.subrange(from, to),
        ),
{
    let (l, r) = (left.subrange(from, to), right.subrange(from, to));
    assert forall|i: int|
        #![trigger l[i], r[i]]
        0 <= i < l.len() implies l[i] == left[from + i] && r[i] == right[from + i] by {}
    assert(sums(l, r) =~= sums(left, right).subrange(from, to));
    assert(differences(l, r) =~= differences(left, right).subrange(from, to));
    assert(products(l, r) =~= products(left, right).subrange(from, to));
}

/// Quotients of two windows are the window of the quotients, and may be computed where those may,
/// if nothing is divided by zero. A window holds a zero or divides by one only where the whole
/// does.
pub proof fn quotients_of_slices<T: ArrowNumericType>(
    left: Seq<Slot<T::Native>>,
    right: Seq<Slot<T::Native>>,
    from: int,
    to: int,
) where T::Native: Div<Output = T::Native>
    requires
        left.len() == right.len(),
        0 <= from <= to <= left.len(),
    ensures
        quotients::<T>(left.subrange(from, to), right.subrange(from, to)) == quotients::<T>(
            left,
            right,
        ).subrange(from, to),
        divides_by_zero::<T>(left.subrange(from, to), right.subrange(from, to))
            ==> divides_by_zero::<T>(left, right),
        holds_zero::<T>(right.subrange(from, to)) ==> holds_zero::<T>(right),
        quotients_defined::<T>(left, right) && !divides_by_zero::<T>(left, right)
            ==> quotients_defined::<T>(left.subrange(from, to), right.subrange(from, to)),
{
    let (l, r) = (left.subrange(from, to), right.subrange(from, to));
    assert(quotients::<T>(l, r) =~= quotients::<T>(left, right).subrange(from, to));
    if divides_by_zero::<T>(l, r) {
        let i = choose|i: int|
            0 <= i < l.len() && both_valid(l, r, i) && T::is_zero_spec((#[trigger] r[i]).value);
        assert(r[i] == right[from + i]);
    }
    if holds_zero::<T>(r) {
        let i = choose|i: int|
            0 <= i < r.len() && (#[trigger] r[i]).valid && T::is_zero_spec(r[i].value);
        assert(r[i] == right[from + i]);
    }
    if quotients_defined::<T>(left, right) && !divides_by_zero::<T>(left, right) {
        assert forall|i: int|
            #![trigger l[i], r[i]]
            0 <= i < l.len() && both_valid(l, r, i) && nonzero_below::<T>(
                l,
                r,
                i + 1,
            ) implies l[i].value.div_req(r[i].value) by {
            assert(l[i] == left[from + i] && r[i] == right[from + i]);
            assert(nonzero_below::<T>(left, right, from + i + 1));
        }
    }
}

/// The operation has one result for each pair of values.
pub open spec fn determined<N, F: Fn(N, N) -> N>(op: F) -> bool {
    forall|a: N, b: N, p: N, q: N|
        call_ensures(op, (a, b), p) && call_ensures(op, (a, b), q) ==> p == q
}

/// Where the operation has one result for each pair of values, so has `math_op` for each pair of
/// arrays.
pub proof fn math_op_is_determined<N, F: Fn(N, N) -> N>(
    left: Seq<Slot<N>>,
    right: Seq<Slot<N>>,
    op: F,
    out: Seq<Slot<N>>,
    other: Seq<Slot<N>>,
)
    requires
        op_applied(left, right, op, out),
        op_applied(left, right, op, other),
        determined(op),
    ensures
        out == other,
{
    assert forall|i: int| 0 <= i < out.len() implies out[i] == other[i] by {
        assert(call_ensures(op, (left[i].value, right[i].value), out[i].value));
        assert(call_ensures(op, (left[i].value, right[i].value), other[i].value));
    }
    assert(out =~= other);
}

/// What `math_divide` returns for two windows is the window of what it returns for the whole
/// arrays: it succeeds there wherever it succeeds on the whole.
pub proof fn math_divide_of_slices<T: ArrowNumericType>(
    left: &PrimitiveArray<T>,
    right: &PrimitiveArray<T>,
    c: PrimitiveArray<T>,
    from: int,
    to: int,
    l: &PrimitiveArray<T>,
    r: &PrimitiveArray<T>,
    result: Result<PrimitiveArray<T>>,
) where T::Native: Div<Output = T::Native>
    requires
        0 <= from <= to <= left@.len(),
        l@ == left@.subrange(from, to),
        r@ == right@.subrange(from, to),
        determined(<T::Native as Div>::div),
        call_ensures(math_divide::<T>, (left, right), Ok(c)),
        call_ensures(math_divide::<T>, (l, r), result),
    ensures
        result is Ok,
        result->Ok_0@ == c@.subrange(from, to),
        result->Ok_0.owns_storage(),
{
    quotients_of_slices::<T>(left@, right@, from, to);
    let d = result->Ok_0;
    assert forall|i: int| 0 <= i < d@.len() implies d@[i] == c@.subrange(from, to)[i] by {
        assert(c@.subrange(from, to)[i] == c@[from + i]);
        assert(l@[i] == left@[from + i] && r@[i] == right@[from + i]);
        assert(d@[i].valid == c@[from + i].valid);
        if d@[i].valid {
            assert(call_ensures(
                <T::Native as Div>::div,
                (l@[i].value, r@[i].value),
                d@[i].value,
            ));
            assert(call_ensures(
                <T::Native as Div>::div,
                (l@[i].value, r@[i].value),
                c@[from + i].value,
            ));
        }
    }
    assert(d@ =~= c@.subrange(from, to));
}

/// `simd_op` may be called where `op` may be called on each pair of lanes, and does in each lane
/// what `op` does.
pub open spec fn lane_wise<T, F, G>(op: F, simd_op: G) -> bool where
    T: ArrowNumericType,
    F: Fn(T::Native, T::Native) -> T::Native,
    G: Fn(Simd<T>, Simd<T>) -> Simd<T>,
 {
    &&& forall|x: Simd<T>, y: Simd<T>|
        (forall|j: int|
            #![trigger x@[j], y@[j]]
            0 <= j < T::lanes_spec() ==> call_requires(op, (x@[j], y@[j])))
            ==> #[trigger] call_requires(simd_op, (x, y))
    &&& forall|x: Simd<T>, y: Simd<T>, z: Simd<T>, j: int|
        #![trigger call_ensures(simd_op, (x, y), z), z@[j]]
        call_ensures(simd_op, (x, y), z) && 0 <= j < T::lanes_spec() ==> call_ensures(
            op,
            (x@[j], y@[j]),
            z@[j],
        )
}

/// Wherever `math_op` may be called, `simd_math_op` may be called with the same operation on each
/// lane.
pub proof fn simd_math_op_accepts_what_math_op_accepts<T, F, G>(
    left: Seq<Slot<T::Native>>,
    right: Seq<Slot<T::Native>>,
    op: F,
    simd_op: G,
) where
    T: ArrowNumericType,
    F: Fn(T::Native, T::Native) -> T::Native,
    G: Fn(Simd<T>, Simd<T>) -> Simd<T>,

    requires
        left.len() == right.len(),
        lane_wise::<T, F, G>(op, simd_op),
        op_defined(left, right, op),
    ensures
        simd_op_defined(left, right, simd_op),
{
    assert forall|start: int, x: Simd<T>, y: Simd<T>| #[trigger]
        operands_at(left, right, start, x, y) implies call_requires(simd_op, (x, y)) by {
        assert forall|j: int|
            #![trigger x@[j], y@[j]]
            0 <= j < T::lanes_spec() implies call_requires(op, (x@[j], y@[j])) by {
            let i = if start + j < left.len() {
                start + j
            } else {
                start
            };
            assert(x@[j] == left[i].value && y@[j] == right[i].value);
        }
    }
}

/// Each slot lies in a register.
proof fn lemma_register_of_slot<T: ArrowNumericType>(i: int, len: int) -> (start: int)
    requires
        0 <= i < len,
    ensures
        register_start::<T>(start, len),
        start <= i < register_end::<T>(start, len),
{
    T::lanes_is_positive();
    let n = T::lanes_spec() as int;
    lemma_fundamental_div_mod(i, n);
    lemma_mod_bound(i, n);
    let start = n * (i / n);
    lemma_mod_multiples_basic(i / n, n);
    assert(start == (i / n) * n && 0 <= start) by (nonlinear_arith)
        requires
            start == n * (i / n),
            n > 0,
            i >= 0,
    ;
    start
}

/// What `simd_math_op` returns is what `math_op` may return for the operation on one lane.
pub proof fn simd_math_op_is_math_op<T, F, G>(
    left: Seq<Slot<T::Native>>,
    right: Seq<Slot<T::Native>>,
    op: F,
    simd_op: G,
    out: Seq<Slot<T::Native>>,
) where
    T: ArrowNumericType,
    F: Fn(T::Native, T::Native) -> T::Native,
    G: Fn(Simd<T>, Simd<T>) -> Simd<T>,

    requires
        left.len() == right.len(),
        lane_wise::<T, F, G>(op, simd_op),
        simd_op_applied(left, right, simd_op, out),
    ensures
        op_applied(left, right, op, out),
{
    assert forall|i: int| 0 <= i < out.len() implies call_ensures(
        op,
        (left[i].value, right[i].value),
        (#[trigger] out[i]).value,
    ) by {
        let start = lemma_register_of_slot::<T>(i, left.len() as int);
        let end = register_end::<T>(start, left.len() as int);
        assert(register_applied(left, right, simd_op, stored(out), start));
        let (x, y, z) = choose|x: Simd<T>, y: Simd<T>, z: Simd<T>| #[trigger]
            register_from(left, right, simd_op, stored(out), start, x, y, z);
        assert(stored(out).subrange(start, end)[i - start] == out[i].value);
        assert(z@.take(end - start)[i - start] == z@[i - start]);
        assert(x@[i - start] == left[i].value);
        assert(y@[i - start] == right[i].value);
    }
}

/// `simd_math_op` fails where `math_op` fails, and in the same way. Otherwise, where the operation
/// has one result for each pair of values, they give the same slots.
pub proof fn simd_math_op_agrees_with_math_op<T, F, G>(
    left: &PrimitiveArray<T>,
    right: &PrimitiveArray<T>,
    op: F,
    simd_op: G,
    plain: Result<PrimitiveArray<T>>,
    wide: Result<PrimitiveArray<T>>,
) where
    T: ArrowNumericType,
    F: Fn(T::Native, T::Native) -> T::Native,
    G: Fn(Simd<T>, Simd<T>) -> Simd<T>,

    requires
        lane_wise::<T, F, G>(op, simd_op),
        determined(op),
        call_ensures(math_op::<T, F>, (left, right, op), plain),
        call_ensures(simd_math_op::<T, G>, (left, right, simd_op), wide),
    ensures
        plain is Ok <==> wide is Ok,
        plain is Err ==> plain->Err_0.is_length_mismatch() && wide->Err_0.is_length_mismatch(),
        plain is Ok ==> wide->Ok_0@ == plain->Ok_0@,
        plain is Ok ==> wide->Ok_0.has_null_bitmap() == plain->Ok_0.has_null_bitmap(),
{
    if plain is Ok {
        let (c, d) = (plain->Ok_0@, wide->Ok_0@);
        simd_math_op_is_math_op::<T, F, G>(left@, right@, op, simd_op, d);
        math_op_is_determined(left@, right@, op, c, d);
    }
}

/// `simd_divide` and `math_divide` give arrays with the same contents.
pub proof fn simd_quotients_are_quotients<T: ArrowNumericType>(
    left: Seq<Slot<T::Native>>,
    right: Seq<Slot<T::Native>>,
) where T::Native: Div<Output = T::Native>
    ensures
        contents(simd_quotients::<T>(left, right)) == contents(quotients::<T>(left, right)),
{
    assert(contents(simd_quotients::<T>(left, right)) =~= contents(
        quotients::<T>(left, right),
    ));
}

/// The same slots with the default value beneath each null.
pub open spec fn nulls_cleared<T: ArrowNumericType>(
    slots: Seq<Slot<T::Native>>,
) -> Seq<Slot<T::Native>> {
    Seq::new(
        slots.len(),
        |i: int|
            if slots[i].valid {
                slots[i]
            } else {
                Slot { value: T::default_spec(), valid: false }
            },
    )
}

/// What `simd_divide` returns is what `math_divide` may return, but for what is stored beneath
/// nulls.
pub proof fn simd_divide_is_math_divide<T: ArrowNumericType>(
    left: Seq<Slot<T::Native>>,
    right: Seq<Slot<T::Native>>,
    out: Seq<Slot<T::Native>>,
) where T::Native: Div<Output = T::Native>
    requires
        left.len() == right.len(),
        simd_division_applied::<T>(left, right, out),
    ensures
        division_applied::<T>(left, right, nulls_cleared::<T>(out)),
        contents(nulls_cleared::<T>(out)) == contents(out),
{
    let cleared = nulls_cleared::<T>(out);
    assert forall|i: int| 0 <= i < out.len() implies (#[trigger] cleared[i]).valid
        == out[i].valid && (out[i].valid ==> cleared[i] == out[i]) by {}
    assert(contents(cleared) =~= contents(out));
}

/// Wherever `math_divide` may be called, so may `simd_divide`.
pub proof fn simd_divide_accepts_what_math_divide_accepts<T: ArrowNumericType>(
    left: Seq<Slot<T::Native>>,
    right: Seq<Slot<T::Native>>,
) where T::Native: Div<Output = T::Native>
    requires
        left.len() == right.len(),
        quotients_defined::<T>(left, right),
    ensures
        simd_quotients_defined::<T>(left, right),
{
    assert forall|start: int, i: int|
        #![trigger register_start::<T>(start, left.len() as int), left[i]]
        register_start::<T>(start, left.len() as int) && start <= i < register_end::<T>(
            start,
            left.len() as int,
        ) && both_valid(left, right, i) && nonzero_below::<T>(
            left,
            right,
            register_end::<T>(start, left.len() as int),
        ) implies left[i].value.div_req(right[i].value) by {
        assert(nonzero_below::<T>(left, right, i + 1));
    }
}

/// `simd_divide` fails where `math_divide` fails, and in the same way. Otherwise, where division
/// has one result for each pair of values, they give the same contents.
pub proof fn simd_divide_agrees_with_math_divide<T: ArrowNumericType>(
    left: &PrimitiveArray<T>,
    right: &PrimitiveArray<T>,
    plain: Result<PrimitiveArray<T>>,
    wide: Result<PrimitiveArray<T>>,
) where T::Native: Div<Output = T::Native>
    requires
        determined(<T::Native as Div>::div),
        call_ensures(math_divide::<T>, (left, right), plain),
        call_ensures(simd_divide::<T>, (left, right), wide),
    ensures
        plain is Ok <==> wide is Ok,
        plain is Err ==> (plain->Err_0 is DivideByZero <==> wide->Err_0 is DivideByZero),
        plain is Err ==> (plain->Err_0.is_length_mismatch()
            <==> wide->Err_0.is_length_mismatch()),
        plain is Ok ==> contents(wide->Ok_0@) == contents(plain->Ok_0@),
        plain is Ok ==> wide->Ok_0.has_null_bitmap() == plain->Ok_0.has_null_bitmap(),
{
    if plain is Ok {
        let (c, d) = (plain->Ok_0@, wide->Ok_0@);
        assert forall|i: int| 0 <= i < c.len() implies c[i].content() == d[i].content() by {
            assert(c[i].valid == d[i].valid);
            if c[i].valid {
                assert(call_ensures(
                    <T::Native as Div>::div,
                    (left@[i].value, right@[i].value),
                    c[i].value,
                ));
                assert(call_ensures(
                    <T::Native as Div>::div,
                    (left@[i].value, right@[i].value),
                    d[i].value,
                ));
            }
        }
        assert(contents(d) =~= contents(c));
    }
}

/// Where no value on the right is zero, `divide` gives what `math_divide` gives. They part only
/// where each zero on the right stands opposite a null: there `divide` fails.
pub proof fn divide_agrees_with_math_divide<T: ArrowNumericType>(
    left: &PrimitiveArray<T>,
    right: &PrimitiveArray<T>,
    checked: Result<PrimitiveArray<T>>,
    plain: Result<PrimitiveArray<T>>,
) where
    T::Native: Add<Output = T::Native> + Sub<Output = T::Native> + Mul<Output = T::Native> + Div<
        Output = T::Native,
    >,

    requires
        determined(<T::Native as Div>::div),
        call_ensures(divide::<T>, (left, right), checked),
        call_ensures(math_divide::<T>, (left, right), plain),
    ensures
        plain is Err ==> checked is Err,
        plain is Ok && checked is Err ==> checked->Err_0 is DivideByZero && holds_zero::<T>(
            right@,
        ) && !divides_by_zero::<T>(left@, right@),
        checked is Ok ==> plain is Ok && checked->Ok_0@ == plain->Ok_0@,
{
    if checked is Ok {
        let (c, d) = (checked->Ok_0@, plain->Ok_0@);
        assert forall|i: int| 0 <= i < c.len() implies c[i] == d[i] by {
            assert(c[i].valid == d[i].valid);
            if c[i].valid {
                assert(call_ensures(
                    <T::Native as Div>::div,
                    (left@[i].value, right@[i].value),
                    c[i].value,
                ));
                assert(call_ensures(
                    <T::Native as Div>::div,
                    (left@[i].value, right@[i].value),
                    d[i].value,
                ));
            }
        }
        assert(c =~= d);
    }
}

/// Division of machine integers has one result for each pair of values.
pub proof fn integer_division_is_determined<N: NativeInteger>()
    ensures
        determined(<N as Div>::div),
{
    assert forall|a: N, b: N, p: N, q: N|
        call_ensures(<N as Div>::div, (a, b), p) && call_ensures(
            <N as Div>::div,
            (a, b),
            q,
        ) implies p == q by {
        N::operators_are_exact(a, b);
    }
}

} // verus!
