//! The laws that relate the kernels, on concrete arrays.

use arrow_arithmetic::arithmetic::{divide, math_divide, math_op, multiply, subtract};
use arrow_arithmetic::array::{Int32Array, Int64Array};

fn contents(a: &Int32Array) -> Vec<Option<i32>> {
    let mut out = Vec::new();
    for i in 0..a.len() {
        out.push(if a.is_null(i) { None } else { Some(a.value(i)) });
    }
    out
}

fn operands() -> (Int32Array, Int32Array) {
    (
        Int32Array::from_options(vec![Some(12), None, Some(-7), Some(0), Some(5)]),
        Int32Array::from_options(vec![Some(3), Some(4), Some(-2), Some(9), None]),
    )
}

#[test]
fn a_slot_is_null_where_an_operand_is() {
    let (a, b) = operands();
    let expected = vec![Some(15), None, Some(-9), Some(9), None];
    assert_eq!(expected, contents(&arrow_arithmetic::arithmetic::add(&a, &b).unwrap()));
    let expected = vec![Some(9), None, Some(-5), Some(-9), None];
    assert_eq!(expected, contents(&subtract(&a, &b).unwrap()));
    let expected = vec![Some(36), None, Some(14), Some(0), None];
    assert_eq!(expected, contents(&multiply(&a, &b).unwrap()));
    let expected = vec![Some(4), None, Some(3), Some(0), None];
    assert_eq!(expected, contents(&divide(&a, &b).unwrap()));
}

#[test]
fn sums_and_products_commute() {
    let (a, b) = operands();
    assert_eq!(
        contents(&arrow_arithmetic::arithmetic::add(&a, &b).unwrap()),
        contents(&arrow_arithmetic::arithmetic::add(&b, &a).unwrap())
    );
    assert_eq!(
        contents(&multiply(&a, &b).unwrap()),
        contents(&multiply(&b, &a).unwrap())
    );
}

#[test]
fn subtract_and_add_undo_each_other() {
    let (a, b) = operands();
    let masked = vec![Some(12), None, Some(-7), Some(0), None];
    let sum = arrow_arithmetic::arithmetic::add(&a, &b).unwrap();
    assert_eq!(masked, contents(&subtract(&sum, &b).unwrap()));
    let difference = subtract(&a, &b).unwrap();
    let back = arrow_arithmetic::arithmetic::add(&difference, &b).unwrap();
    assert_eq!(masked, contents(&back));
}

#[test]
fn divide_undoes_multiply() {
    let (a, b) = operands();
    let masked = vec![Some(12), None, Some(-7), Some(0), None];
    let product = multiply(&a, &b).unwrap();
    assert_eq!(masked, contents(&divide(&product, &b).unwrap()));
}

#[test]
fn kernels_commute_with_slices() {
    let (a, b) = operands();
    let (l, r) = (a.slice(1, 3), b.slice(1, 3));
    assert_eq!(
        contents(&multiply(&a, &b).unwrap().slice(1, 3)),
        contents(&multiply(&l, &r).unwrap())
    );
    assert_eq!(
        contents(&divide(&a, &b).unwrap().slice(1, 3)),
        contents(&divide(&l, &r).unwrap())
    );
    assert_eq!(
        contents(&math_divide(&a, &b).unwrap().slice(1, 3)),
        contents(&math_divide(&l, &r).unwrap())
    );
    assert_eq!(
        contents(&math_op(&a, &b, |x, y| x - 2 * y).unwrap().slice(1, 3)),
        contents(&math_op(&l, &r, |x, y| x - 2 * y).unwrap())
    );
}

#[test]
fn a_slice_of_a_slice_is_a_window() {
    let a = Int64Array::from_values(vec![10, 11, 12, 13, 14, 15]);
    let s = a.slice(1, 4).slice(2, 2);
    assert_eq!(2, s.len());
    assert_eq!(13, s.value(0));
    assert_eq!(14, s.value(1));
    assert_eq!(true, s.is_valid(1));
}
