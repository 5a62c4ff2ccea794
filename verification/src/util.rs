//! What the kernels share.

use vstd::prelude::*;

use crate::array::{both_valid, PrimitiveArray};
use crate::bitmap::Bitmap;
use crate::datatypes::ArrowPrimitiveType;

verus! {

/// The validity bitmap of an operation on `left` and `right`: a bit is set where both operands
/// are valid. There is no bitmap where neither operand has one.
pub(crate) fn combine_option_bitmap<T: ArrowPrimitiveType>(
    left: &PrimitiveArray<T>,
    right: &PrimitiveArray<T>,
) -> (r: Option<Bitmap>)
    requires
        left@.len() == right@.len(),
    ensures
        r is Some <==> left.has_null_bitmap() || right.has_null_bitmap(),
        r is Some ==> left@.len() <= r->Some_0@.len(),
        forall|i: int|
            0 <= i < left@.len() ==> #[trigger] both_valid(left@, right@, i) == (r is Some
                ==> r->Some_0@[i]),
{
    if !left.is_nullable() && !right.is_nullable() {
        return None;
    }
    let len = left.len();
    let mut bitmap = Bitmap::zeroed(len);
    let mut i: usize = 0;
    while i < len
        invariant
            i <= len,
            len == left@.len(),
            len == right@.len(),
            len <= bitmap@.len(),
            forall|j: int| i <= j < len ==> !#[trigger] bitmap@[j],
            forall|j: int|
                0 <= j < i ==> #[trigger] bitmap@[j] == both_valid(left@, right@, j),
        decreases len - i,
    {
        if left.is_valid(i) && right.is_valid(i) {
            bitmap.set_bit(i);
        }
        i += 1;
    }
    Some(bitmap)
}

} // verus!
