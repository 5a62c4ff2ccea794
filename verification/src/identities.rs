//! The identities of the element types, taken from the `num` crate.
//!
//! Nothing in this file is proved: each function hands one call to `num`, and its contract
//! states what that call returns for the one element type.

use vstd::prelude::*;

verus! {

/// `num::Zero::is_zero` for `i8`: true of 0 and of no other value.
#[verifier::external_body]
pub(crate) fn i8_is_zero(x: &i8) -> (r: bool)
    ensures
        r == (*x == 0),
{
    num::Zero::is_zero(x)
}

/// `num::Zero::zero` for `i8`: the value 0.
#[verifier::external_body]
pub(crate) fn i8_zero() -> (r: i8)
    ensures
        r == 0,
{
    num::Zero::zero()
}

/// `num::One::one` for `i8`: the value 1.
#[verifier::external_body]
pub(crate) fn i8_one() -> (r: i8)
    ensures
        r == 1,
{
    num::One::one()
}

/// `num::Zero::is_zero` for `i16`: true of 0 and of no other value.
#[verifier::external_body]
pub(crate) fn i16_is_zero(x: &i16) -> (r: bool)
    ensures
        r == (*x == 0),
{
    num::Zero::is_zero(x)
}

/// `num::Zero::zero` for `i16`: the value 0.
#[verifier::external_body]
pub(crate) fn i16_zero() -> (r: i16)
    ensures
        r == 0,
{
    num::Zero::zero()
}

/// `num::One::one` for `i16`: the value 1.
#[verifier::external_body]
pub(crate) fn i16_one() -> (r: i16)
    ensures
        r == 1,
{
    num::One::one()
}

/// `num::Zero::is_zero` for `i32`: true of 0 and of no other value.
#[verifier::external_body]
pub(crate) fn i32_is_zero(x: &i32) -> (r: bool)
    ensures
        r == (*x == 0),
{
    num::Zero::is_zero(x)
}

/// `num::Zero::zero` for `i32`: the value 0.
#[verifier::external_body]
pub(crate) fn i32_zero() -> (r: i32)
    ensures
        r == 0,
{
    num::Zero::zero()
}

/// `num::One::one` for `i32`: the value 1.
#[verifier::external_body]
pub(crate) fn i32_one() -> (r: i32)
    ensures
        r == 1,
{
    num::One::one()
}

/// `num::Zero::is_zero` for `i64`: true of 0 and of no other value.
#[verifier::external_body]
pub(crate) fn i64_is_zero(x: &i64) -> (r: bool)
    ensures
        r == (*x == 0),
{
    num::Zero::is_zero(x)
}

/// `num::Zero::zero` for `i64`: the value 0.
#[verifier::external_body]
pub(crate) fn i64_zero() -> (r: i64)
    ensures
        r == 0,
{
    num::Zero::zero()
}

/// `num::One::one` for `i64`: the value 1.
#[verifier::external_body]
pub(crate) fn i64_one() -> (r: i64)
    ensures
        r == 1,
{
    num::One::one()
}

/// `num::Zero::is_zero` for `u8`: true of 0 and of no other value.
#[verifier::external_body]
pub(crate) fn u8_is_zero(x: &u8) -> (r: bool)
    ensures
        r == (*x == 0),
{
    num::Zero::is_zero(x)
}

/// `num::Zero::zero` for `u8`: the value 0.
#[verifier::external_body]
pub(crate) fn u8_zero() -> (r: u8)
    ensures
        r == 0,
{
    num::Zero::zero()
}

/// `num::One::one` for `u8`: the value 1.
#[verifier::external_body]
pub(crate) fn u8_one() -> (r: u8)
    ensures
        r == 1,
{
    num::One::one()
}

/// `num::Zero::is_zero` for `u16`: true of 0 and of no other value.
#[verifier::external_body]
pub(crate) fn u16_is_zero(x: &u16) -> (r: bool)
    ensures
        r == (*x == 0),
{
    num::Zero::is_zero(x)
}

/// `num::Zero::zero` for `u16`: the value 0.
#[verifier::external_body]
pub(crate) fn u16_zero() -> (r: u16)
    ensures
        r == 0,
{
    num::Zero::zero()
}

/// `num::One::one` for `u16`: the value 1.
#[verifier::external_body]
pub(crate) fn u16_one() -> (r: u16)
    ensures
        r == 1,
{
    num::One::one()
}

/// `num::Zero::is_zero` for `u32`: true of 0 and of no other value.
#[verifier::external_body]
pub(crate) fn u32_is_zero(x: &u32) -> (r: bool)
    ensures
        r == (*x == 0),
{
    num::Zero::is_zero(x)
}

/// `num::Zero::zero` for `u32`: the value 0.
#[verifier::external_body]
pub(crate) fn u32_zero() -> (r: u32)
    ensures
        r == 0,
{
    num::Zero::zero()
}

/// `num::One::one` for `u32`: the value 1.
#[verifier::external_body]
pub(crate) fn u32_one() -> (r: u32)
    ensures
        r == 1,
{
    num::One::one()
}

/// `num::Zero::is_zero` for `u64`: true of 0 and of no other value.
#[verifier::external_body]
pub(crate) fn u64_is_zero(x: &u64) -> (r: bool)
    ensures
        r == (*x == 0),
{
    num::Zero::is_zero(x)
}

/// `num::Zero::zero` for `u64`: the value 0.
#[verifier::external_body]
pub(crate) fn u64_zero() -> (r: u64)
    ensures
        r == 0,
{
    num::Zero::zero()
}

/// `num::One::one` for `u64`: the value 1.
#[verifier::external_body]
pub(crate) fn u64_one() -> (r: u64)
    ensures
        r == 1,
{
    num::One::one()
}

} // verus!
