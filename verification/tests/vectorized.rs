//! The vectorized kernels against the plain ones.

use arrow_arithmetic::arithmetic::{math_divide, math_op};
use arrow_arithmetic::array::{
    Int16Array, Int32Array, Int64Array, Int8Array, UInt16Array, UInt32Array, UInt64Array,
    UInt8Array,
};
use arrow_arithmetic::bitmap::Bitmap;
use arrow_arithmetic::datatypes::Int32Type;
use arrow_arithmetic::error::ArrowError;
use arrow_arithmetic::simd::Simd;
use arrow_arithmetic::vectorized::{simd_divide, simd_math_op};

fn contents(a: &Int32Array) -> Vec<Option<i32>> {
    let mut out = Vec::new();
    for i in 0..a.len() {
        out.push(if a.is_null(i) { None } else { Some(a.value(i)) });
    }
    out
}

fn long_operands() -> (Int32Array, Int32Array) {
    let mut a = Vec::new();
    let mut b = Vec::new();
    for i in 0..37 {
        a.push(if i % 5 == 0 { None } else { Some(100 - 7 * i) });
        b.push(if i % 7 == 3 { None } else { Some(i - 40) });
    }
    (Int32Array::from_options(a), Int32Array::from_options(b))
}

#[test]
fn registers_give_what_slots_give() {
    let (a, b) = long_operands();
    let plain = math_op(&a, &b, |x, y| 3 * x - y).unwrap();
    let wide = simd_math_op(&a, &b, |x: Simd<Int32Type>, y: Simd<Int32Type>| {
        x.bin_op(&y, |p, q| 3 * p - q)
    })
    .unwrap();
    assert_eq!(37, wide.len());
    assert_eq!(contents(&plain), contents(&wide));
    assert_eq!(3 * 93 + 39, wide.value(1));
    assert_eq!(true, wide.is_null(35));
    assert_eq!(3 * -152 + 4, wide.value(36));
}

#[test]
fn a_register_has_sixteen_words() {
    let a = Int32Array::from_values(vec![4, 5]);
    let x = Simd::<Int32Type>::load(&a, 1);
    assert_eq!(16, x.len());
    let mask = x.eq(&Simd::init(5));
    assert_eq!(true, mask[0]);
    assert_eq!(true, mask[15]);
    let y = Simd::<Int32Type>::load(&a, 0);
    assert_eq!(vec![false, true, false], y.eq(&Simd::init(5))[0..3].to_vec());
}

#[test]
fn vectorized_kernels_refuse_different_lengths() {
    let a = Int32Array::from_values(vec![4, 5]);
    let b = Int32Array::from_values(vec![0]);
    let r = simd_math_op(&a, &b, |x: Simd<Int32Type>, _y: Simd<Int32Type>| x);
    assert!(matches!(r, Err(ArrowError::ComputeError(_))));
    assert!(matches!(simd_divide(&a, &b), Err(ArrowError::ComputeError(_))));
}

#[test]
fn vectorized_division_gives_the_same_contents() {
    let (a, b) = long_operands();
    let plain = math_divide(&a, &b).unwrap();
    let wide = simd_divide(&a, &b).unwrap();
    assert_eq!(contents(&plain), contents(&wide));
    assert_eq!(-2, wide.value(1));
    assert_eq!(0, plain.value(3));
    assert_eq!(79, wide.value(3));
}

#[test]
fn vectorized_division_finds_zero_only_in_valid_lanes() {
    let a = Int32Array::from_values(vec![4, 5, 6]);
    let b = Int32Array::from_options(vec![Some(2), None, Some(4)]);
    let c = simd_divide(&a, &b).unwrap();
    assert_eq!(vec![Some(2), None, Some(1)], contents(&c));
    assert_eq!(5, c.value(1));
    let z = Int32Array::from_options(vec![Some(2), None, Some(0)]);
    assert!(matches!(simd_divide(&a, &z), Err(ArrowError::DivideByZero)));
}

#[test]
fn zero_in_a_register_stops_it_before_any_quotient() {
    let a = Int32Array::from_values(vec![i32::MIN, 1]);
    let b = Int32Array::from_values(vec![-1, 0]);
    assert!(matches!(simd_divide(&a, &b), Err(ArrowError::DivideByZero)));
}

#[test]
fn vectorized_division_works_at_every_width() {
    let one_null = |v| vec![None, Some(v)];
    let a = Int8Array::from_values(vec![9, 9]);
    let c = simd_divide(&a, &Int8Array::from_options(one_null(2))).unwrap();
    assert_eq!((9, 4), (c.value(0), c.value(1)));
    let a = Int16Array::from_values(vec![9, 9]);
    let c = simd_divide(&a, &Int16Array::from_options(vec![None, Some(2)])).unwrap();
    assert_eq!((9, 4), (c.value(0), c.value(1)));
    let a = Int64Array::from_values(vec![9, 9]);
    let c = simd_divide(&a, &Int64Array::from_options(vec![None, Some(2)])).unwrap();
    assert_eq!((9, 4), (c.value(0), c.value(1)));
    let a = UInt8Array::from_values(vec![9, 9]);
    let c = simd_divide(&a, &UInt8Array::from_options(vec![None, Some(2)])).unwrap();
    assert_eq!((9, 4), (c.value(0), c.value(1)));
    let a = UInt16Array::from_values(vec![9, 9]);
    let c = simd_divide(&a, &UInt16Array::from_options(vec![None, Some(2)])).unwrap();
    assert_eq!((9, 4), (c.value(0), c.value(1)));
    let a = UInt32Array::from_values(vec![9, 9]);
    let c = simd_divide(&a, &UInt32Array::from_options(vec![None, Some(2)])).unwrap();
    assert_eq!((9, 4), (c.value(0), c.value(1)));
    let a = UInt64Array::from_values(vec![9, 9]);
    let c = simd_divide(&a, &UInt64Array::from_options(vec![None, Some(2)])).unwrap();
    assert_eq!((9, 4), (c.value(0), c.value(1)));
}

#[test]
fn vectorized_division_finds_zero_at_every_width() {
    let z = Int8Array::from_values(vec![0]);
    assert!(matches!(simd_divide(&z, &z), Err(ArrowError::DivideByZero)));
    let z = Int16Array::from_values(vec![0]);
    assert!(matches!(simd_divide(&z, &z), Err(ArrowError::DivideByZero)));
    let z = Int64Array::from_values(vec![0]);
    assert!(matches!(simd_divide(&z, &z), Err(ArrowError::DivideByZero)));
    let z = UInt8Array::from_values(vec![0]);
    assert!(matches!(simd_divide(&z, &z), Err(ArrowError::DivideByZero)));
    let z = UInt16Array::from_values(vec![0]);
    assert!(matches!(simd_divide(&z, &z), Err(ArrowError::DivideByZero)));
    let z = UInt32Array::from_values(vec![0]);
    assert!(matches!(simd_divide(&z, &z), Err(ArrowError::DivideByZero)));
    let z = UInt64Array::from_values(vec![0]);
    assert!(matches!(simd_divide(&z, &z), Err(ArrowError::DivideByZero)));
}

#[test]
fn bits_are_packed_least_significant_first() {
    let mut b = Bitmap::zeroed(11);
    b.set_bit(0);
    b.set_bit(9);
    b.set_bit(7);
    assert_eq!(true, b.get_bit(0));
    assert_eq!(false, b.get_bit(1));
    assert_eq!(true, b.get_bit(7));
    assert_eq!(false, b.get_bit(8));
    assert_eq!(true, b.get_bit(9));
    assert_eq!(false, b.get_bit(10));
}
