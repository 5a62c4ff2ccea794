//! The kernels on arrays with and without nulls, whole and sliced.

use arrow_arithmetic::arithmetic::{divide, math_divide, math_op, multiply, subtract};
use arrow_arithmetic::array::{
    Int16Array, Int32Array, Int64Array, Int8Array, PrimitiveArray, UInt16Array, UInt32Array,
    UInt64Array, UInt8Array,
};
use arrow_arithmetic::datatypes::{ArrowNumericType, ArrowPrimitiveType};
use arrow_arithmetic::error::ArrowError;

struct Float64Type;

impl ArrowPrimitiveType for Float64Type {
    type Native = f64;

    fn default_spec() -> f64 {
        0.0
    }

    fn default_value() -> f64 {
        0.0
    }
}

impl ArrowNumericType for Float64Type {
    fn is_zero_spec(x: f64) -> bool {
        Self::is_zero(&x)
    }

    fn zero_spec() -> f64 {
        Self::zero()
    }

    fn one_spec() -> f64 {
        Self::one()
    }

    fn eq_spec(a: f64, b: f64) -> bool {
        Self::eq(&a, &b)
    }

    fn lanes_spec() -> usize {
        Self::lanes()
    }

    fn is_zero(x: &f64) -> bool {
        num::Zero::is_zero(x)
    }

    fn zero() -> f64 {
        num::Zero::zero()
    }

    fn one() -> f64 {
        num::One::one()
    }

    fn eq(a: &f64, b: &f64) -> bool {
        *a == *b
    }

    fn lanes() -> usize {
        8
    }

    fn lanes_is_positive() {}

    fn zero_test_is_comparison(_x: f64) {}

    fn one_is_not_zero() {}

    fn one_divides(_x: f64) {}
}

type Float64Array = PrimitiveArray<Float64Type>;

#[test]
fn test_primitive_array_add() {
    let a = Int32Array::from_values(vec![5, 6, 7, 8, 9]);
    let b = Int32Array::from_values(vec![6, 7, 8, 9, 8]);
    let c = arrow_arithmetic::arithmetic::add(&a, &b).unwrap();
    assert_eq!(11, c.value(0));
    assert_eq!(13, c.value(1));
    assert_eq!(15, c.value(2));
    assert_eq!(17, c.value(3));
    assert_eq!(17, c.value(4));
}

#[test]
fn test_primitive_array_add_sliced() {
    let a = Int32Array::from_values(vec![0, 0, 0, 5, 6, 7, 8, 9, 0]);
    let b = Int32Array::from_values(vec![0, 0, 0, 6, 7, 8, 9, 8, 0]);
    let a = a.slice(3, 5);
    let b = b.slice(3, 5);

    assert_eq!(5, a.value(0));
    assert_eq!(6, b.value(0));

    let c = arrow_arithmetic::arithmetic::add(&a, &b).unwrap();
    assert_eq!(5, c.len());
    assert_eq!(11, c.value(0));
    assert_eq!(13, c.value(1));
    assert_eq!(15, c.value(2));
    assert_eq!(17, c.value(3));
    assert_eq!(17, c.value(4));
}

#[test]
fn test_primitive_array_add_mismatched_length() {
    let a = Int32Array::from_values(vec![5, 6, 7, 8, 9]);
    let b = Int32Array::from_values(vec![6, 7, 8]);
    let e = arrow_arithmetic::arithmetic::add(&a, &b)
        .err()
        .expect("should have failed due to different lengths");
    assert_eq!(
        "ComputeError(\"Cannot perform math operation on arrays of different length\")",
        format!("{:?}", e)
    );
}

#[test]
fn test_primitive_array_subtract() {
    let a = Int32Array::from_values(vec![1, 2, 3, 4, 5]);
    let b = Int32Array::from_values(vec![5, 4, 3, 2, 1]);
    let c = subtract(&a, &b).unwrap();
    assert_eq!(-4, c.value(0));
    assert_eq!(-2, c.value(1));
    assert_eq!(0, c.value(2));
    assert_eq!(2, c.value(3));
    assert_eq!(4, c.value(4));
}

#[test]
fn test_primitive_array_multiply() {
    let a = Int32Array::from_values(vec![5, 6, 7, 8, 9]);
    let b = Int32Array::from_values(vec![6, 7, 8, 9, 8]);
    let c = multiply(&a, &b).unwrap();
    assert_eq!(30, c.value(0));
    assert_eq!(42, c.value(1));
    assert_eq!(56, c.value(2));
    assert_eq!(72, c.value(3));
    assert_eq!(72, c.value(4));
}

#[test]
fn test_primitive_array_divide() {
    let a = Int32Array::from_values(vec![15, 15, 8, 1, 9]);
    let b = Int32Array::from_values(vec![5, 6, 8, 9, 1]);
    let c = divide(&a, &b).unwrap();
    assert_eq!(3, c.value(0));
    assert_eq!(2, c.value(1));
    assert_eq!(1, c.value(2));
    assert_eq!(0, c.value(3));
    assert_eq!(9, c.value(4));
}

#[test]
fn test_primitive_array_divide_sliced() {
    let a = Int32Array::from_values(vec![0, 0, 0, 15, 15, 8, 1, 9, 0]);
    let b = Int32Array::from_values(vec![0, 0, 0, 5, 6, 8, 9, 1, 0]);
    let a = a.slice(3, 5);
    let b = b.slice(3, 5);

    let c = divide(&a, &b).unwrap();
    assert_eq!(5, c.len());
    assert_eq!(3, c.value(0));
    assert_eq!(2, c.value(1));
    assert_eq!(1, c.value(2));
    assert_eq!(0, c.value(3));
    assert_eq!(9, c.value(4));
}

#[test]
fn test_primitive_array_divide_with_nulls() {
    let a = Int32Array::from_options(vec![Some(15), None, Some(8), Some(1), Some(9), None]);
    let b = Int32Array::from_options(vec![Some(5), Some(6), Some(8), Some(9), None, None]);
    let c = divide(&a, &b).unwrap();
    assert_eq!(3, c.value(0));
    assert_eq!(true, c.is_null(1));
    assert_eq!(1, c.value(2));
    assert_eq!(0, c.value(3));
    assert_eq!(true, c.is_null(4));
    assert_eq!(true, c.is_null(5));
}

#[test]
fn test_primitive_array_divide_with_nulls_sliced() {
    let a = Int32Array::from_options(vec![
        None,
        None,
        None,
        None,
        None,
        None,
        None,
        None,
        Some(15),
        None,
        Some(8),
        Some(1),
        Some(9),
        None,
        None,
    ]);
    let b = Int32Array::from_options(vec![
        None,
        None,
        None,
        None,
        None,
        None,
        None,
        None,
        Some(5),
        Some(6),
        Some(8),
        Some(9),
        None,
        None,
        None,
    ]);

    let a = a.slice(8, 6);
    let b = b.slice(8, 6);

    let c = divide(&a, &b).unwrap();
    assert_eq!(6, c.len());
    assert_eq!(3, c.value(0));
    assert_eq!(true, c.is_null(1));
    assert_eq!(1, c.value(2));
    assert_eq!(0, c.value(3));
    assert_eq!(true, c.is_null(4));
    assert_eq!(true, c.is_null(5));
}

#[test]
#[should_panic(expected = "DivideByZero")]
fn test_primitive_array_divide_by_zero() {
    let a = Int32Array::from_values(vec![15]);
    let b = Int32Array::from_values(vec![0]);
    divide(&a, &b).unwrap();
}

#[test]
fn test_primitive_array_divide_f64() {
    let a = Float64Array::from_values(vec![15.0, 15.0, 8.0]);
    let b = Float64Array::from_values(vec![5.0, 6.0, 8.0]);
    let c = divide(&a, &b).unwrap();
    assert!(3.0 - c.value(0) < f64::EPSILON);
    assert!(2.5 - c.value(1) < f64::EPSILON);
    assert!(1.0 - c.value(2) < f64::EPSILON);
}

#[test]
fn test_primitive_array_add_with_nulls() {
    let a = Int32Array::from_options(vec![Some(5), None, Some(7), None]);
    let b = Int32Array::from_options(vec![None, None, Some(6), Some(7)]);
    let c = arrow_arithmetic::arithmetic::add(&a, &b).unwrap();
    assert_eq!(true, c.is_null(0));
    assert_eq!(true, c.is_null(1));
    assert_eq!(false, c.is_null(2));
    assert_eq!(true, c.is_null(3));
    assert_eq!(13, c.value(2));
}

#[test]
fn math_op_computes_beneath_nulls() {
    let a = Int32Array::from_options(vec![Some(5), None, Some(7)]);
    let b = Int32Array::from_values(vec![1, 2, 3]);
    let c = math_op(&a, &b, |x, y| 10 * x + y).unwrap();
    assert_eq!(51, c.value(0));
    assert_eq!(73, c.value(2));
    assert_eq!(true, c.is_null(1));
    assert_eq!(2, c.value(1));
    assert_eq!(true, c.is_nullable());
    let d = math_op(&b, &b, |x, y| x * y).unwrap();
    assert_eq!(false, d.is_nullable());
    assert_eq!(9, d.value(2));
}

#[test]
fn every_kernel_refuses_different_lengths() {
    let a = Int32Array::from_values(vec![1, 2]);
    let b = Int32Array::from_values(vec![0]);
    assert!(matches!(math_op(&a, &b, |x, _| x), Err(ArrowError::ComputeError(_))));
    assert!(matches!(subtract(&a, &b), Err(ArrowError::ComputeError(_))));
    assert!(matches!(multiply(&a, &b), Err(ArrowError::ComputeError(_))));
    assert!(matches!(divide(&a, &b), Err(ArrowError::ComputeError(_))));
}

#[test]
fn empty_arrays_give_an_empty_array() {
    let a = Int32Array::from_values(vec![]);
    let b = Int32Array::from_options(vec![]);
    assert_eq!(0, divide(&a, &b).unwrap().len());
    assert_eq!(0, multiply(&a, &a).unwrap().len());
}

#[test]
fn any_zero_on_the_right_fails_the_division() {
    let a = Int32Array::from_options(vec![None, Some(4)]);
    let b = Int32Array::from_options(vec![Some(0), Some(2)]);
    assert!(matches!(divide(&a, &b), Err(ArrowError::DivideByZero)));
    let c = math_divide(&a, &b).unwrap();
    assert_eq!(true, c.is_null(0));
    assert_eq!(0, c.value(0));
    assert_eq!(2, c.value(1));
    let d = Int32Array::from_options(vec![Some(3), Some(0)]);
    assert!(matches!(divide(&a, &d), Err(ArrowError::DivideByZero)));
    assert!(matches!(math_divide(&a, &d), Err(ArrowError::DivideByZero)));
}

#[test]
fn zero_beneath_a_null_is_no_value() {
    let a = Int32Array::from_values(vec![1, 4]);
    let b = Int32Array::from_options(vec![None, Some(2)]);
    assert_eq!(0, b.value(0));
    let c = divide(&a, &b).unwrap();
    assert_eq!(true, c.is_null(0));
    assert_eq!(0, c.value(0));
    assert_eq!(2, c.value(1));
}

#[test]
fn a_later_zero_stops_the_division_before_any_quotient() {
    let a = Int32Array::from_values(vec![i32::MIN, 1]);
    let b = Int32Array::from_values(vec![-1, 0]);
    assert!(matches!(divide(&a, &b), Err(ArrowError::DivideByZero)));
}

#[test]
fn first_zero_divisor_stops_the_division() {
    let a = Int32Array::from_values(vec![1, i32::MIN]);
    let b = Int32Array::from_values(vec![0, -1]);
    assert!(matches!(math_divide(&a, &b), Err(ArrowError::DivideByZero)));
    assert!(matches!(divide(&a, &b), Err(ArrowError::DivideByZero)));
}

#[test]
fn quotients_round_toward_zero() {
    let a = Int32Array::from_values(vec![7, -7, 7, -7, i32::MIN, 0]);
    let b = Int32Array::from_values(vec![2, 2, -2, -2, 1, -5]);
    let c = divide(&a, &b).unwrap();
    assert_eq!(3, c.value(0));
    assert_eq!(-3, c.value(1));
    assert_eq!(-3, c.value(2));
    assert_eq!(3, c.value(3));
    assert_eq!(i32::MIN, c.value(4));
    assert_eq!(0, c.value(5));
}

#[test]
fn windows_need_not_start_at_a_byte() {
    let a = Int32Array::from_options(vec![None, Some(1), None, Some(3), Some(4), None, Some(6)]);
    let b = Int32Array::from_options(vec![Some(9), Some(8), Some(7), None, Some(5)]);
    let c = arrow_arithmetic::arithmetic::add(&a.slice(3, 4), &b.slice(1, 4)).unwrap();
    assert_eq!(4, c.len());
    assert_eq!(11, c.value(0));
    assert_eq!(11, c.value(1));
    assert_eq!(true, c.is_null(2));
    assert_eq!(11, c.value(3));
    assert_eq!(false, c.is_null(3));
}

#[test]
fn division_works_at_every_width() {
    let c = divide(&Int8Array::from_values(vec![-128]), &Int8Array::from_values(vec![3])).unwrap();
    assert_eq!(-42, c.value(0));
    let c =
        divide(&Int16Array::from_values(vec![-300]), &Int16Array::from_values(vec![7])).unwrap();
    assert_eq!(-42, c.value(0));
    let c = divide(&Int64Array::from_values(vec![1 << 40]), &Int64Array::from_values(vec![-3]));
    assert_eq!(-366503875925, c.unwrap().value(0));
    let c = divide(&UInt8Array::from_values(vec![255]), &UInt8Array::from_values(vec![2])).unwrap();
    assert_eq!(127, c.value(0));
    let c = divide(&UInt16Array::from_values(vec![65535]), &UInt16Array::from_values(vec![256]));
    assert_eq!(255, c.unwrap().value(0));
    let c = divide(&UInt32Array::from_values(vec![u32::MAX]), &UInt32Array::from_values(vec![10]));
    assert_eq!(429496729, c.unwrap().value(0));
    let c = divide(&UInt64Array::from_values(vec![u64::MAX]), &UInt64Array::from_values(vec![10]));
    assert_eq!(1844674407370955161, c.unwrap().value(0));
}

#[test]
fn zero_is_found_at_every_width() {
    let z = Int8Array::from_values(vec![0]);
    assert!(matches!(divide(&z, &z), Err(ArrowError::DivideByZero)));
    let z = Int16Array::from_values(vec![0]);
    assert!(matches!(divide(&z, &z), Err(ArrowError::DivideByZero)));
    let z = Int64Array::from_values(vec![0]);
    assert!(matches!(divide(&z, &z), Err(ArrowError::DivideByZero)));
    let z = UInt8Array::from_values(vec![0]);
    assert!(matches!(divide(&z, &z), Err(ArrowError::DivideByZero)));
    let z = UInt16Array::from_values(vec![0]);
    assert!(matches!(divide(&z, &z), Err(ArrowError::DivideByZero)));
    let z = UInt32Array::from_values(vec![0]);
    assert!(matches!(divide(&z, &z), Err(ArrowError::DivideByZero)));
    let z = UInt64Array::from_values(vec![0]);
    assert!(matches!(divide(&z, &z), Err(ArrowError::DivideByZero)));
}
