//! Vector registers: a fixed number of values that are worked on together.

use vstd::prelude::*;

use crate::array::{both_valid, PrimitiveArray, Slot};
use crate::bitmap::Bitmap;
use crate::datatypes::ArrowNumericType;

verus! {

/// The values of the `T::lanes()` slots that begin at `start`. Lanes past the end of the array
/// repeat the first, so that what may be applied to every slot may be applied to every lane.
pub open spec fn register<T: ArrowNumericType>(
    slots: Seq<Slot<T::Native>>,
    start: int,
) -> Seq<T::Native> {
    Seq::new(
        T::lanes_spec() as nat,
        |j: int|
            if start + j < slots.len() {
                slots[start + j].value
            } else {
                slots[start].value
            },
    )
}

/// The register of `right` that begins at `start`, with one in place of each lane that is null
/// in either sequence or lies past their end.
pub open spec fn divisor_register<T: ArrowNumericType>(
    left: Seq<Slot<T::Native>>,
    right: Seq<Slot<T::Native>>,
    start: int,
) -> Seq<T::Native> {
    Seq::new(
        T::lanes_spec() as nat,
        |j: int|
            if start + j < right.len() && both_valid(left, right, start + j) {
                right[start + j].value
            } else {
                T::one_spec()
            },
    )
}

/// A register of `T::lanes()` values.
pub struct Simd<T: ArrowNumericType> {
    lanes: Vec<T::Native>,
}

impl<T: ArrowNumericType> View for Simd<T> {
    type V = Seq<T::Native>;

    closed spec fn view(&self) -> Seq<T::Native> {
        self.lanes@
    }
}

impl<T: ArrowNumericType> Simd<T> {
    #[verifier::type_invariant]
    spec fn is_full(self) -> bool {
        self.lanes@.len() == T::lanes_spec()
    }

    /// A register has `T::lanes()` lanes.
    pub fn len(&self) -> (r: usize)
        ensures
            r == self@.len(),
            self@.len() == T::lanes_spec(),
    {
        proof {
            use_type_invariant(self);
        }
        self.lanes.len()
    }

    /// A register with `value` in every lane.
    pub fn init(value: T::Native) -> (r: Self)
        ensures
            r@.len() == T::lanes_spec(),
            forall|j: int| 0 <= j < r@.len() ==> #[trigger] r@[j] == value,
    {
        let n = T::lanes();
        let mut lanes: Vec<T::Native> = Vec::with_capacity(n);
        let mut j: usize = 0;
        while j < n
            invariant
                j <= n,
                lanes@.len() == j,
                forall|k: int| 0 <= k < j ==> #[trigger] lanes@[k] == value,
            decreases n - j,
        {
            lanes.push(value);
            j += 1;
        }
        Simd { lanes }
    }

    /// The register of `array` that begins at slot `start`.
    pub fn load(array: &PrimitiveArray<T>, start: usize) -> (r: Self)
        requires
            start < array@.len(),
        ensures
            r@ == register::<T>(array@, start as int),
    {
        let n = T::lanes();
        let len = array.len();
        let mut lanes: Vec<T::Native> = Vec::with_capacity(n);
        let mut j: usize = 0;
        while j < n
            invariant
                j <= n,
                n == T::lanes_spec(),
                len == array@.len(),
                start < len,
                lanes@ =~= register::<T>(array@, start as int).take(j as int),
            decreases n - j,
        {
            if j < len - start {
                lanes.push(array.value(start + j));
            } else {
                lanes.push(array.value(start));
            }
            j += 1;
        }
        Simd { lanes }
    }

    /// The register of `array` that begins at slot `start`, with `fill` in place of each lane
    /// whose bit in `bitmap` is clear, and of each lane past the end of the array.
    pub(crate) fn load_set_invalid(
        array: &PrimitiveArray<T>,
        bitmap: &Option<Bitmap>,
        start: usize,
        fill: T::Native,
    ) -> (r: Self)
        requires
            start <= array@.len(),
            bitmap is Some ==> array@.len() <= bitmap->Some_0@.len(),
        ensures
            r@.len() == T::lanes_spec(),
            forall|j: int|
                0 <= j < r@.len() ==> #[trigger] r@[j] == if start + j < array@.len() && (
                bitmap is Some ==> bitmap->Some_0@[start + j]) {
                    array@[start + j].value
                } else {
                    fill
                },
    {
        let n = T::lanes();
        let len = array.len();
        let mut lanes: Vec<T::Native> = Vec::with_capacity(n);
        let mut j: usize = 0;
        while j < n
            invariant
                j <= n,
                len == array@.len(),
                start <= len,
                bitmap is Some ==> len <= bitmap->Some_0@.len(),
                lanes@.len() == j,
                forall|k: int|
                    0 <= k < j ==> #[trigger] lanes@[k] == if start + k < len && (bitmap is Some
                        ==> bitmap->Some_0@[start + k]) {
                        array@[start + k].value
                    } else {
                        fill
                    },
            decreases n - j,
        {
            let valid = if j < len - start {
                match bitmap {
                    Some(b) => b.get_bit(start + j),
                    None => true,
                }
            } else {
                false
            };
            if valid {
                lanes.push(array.value(start + j));
            } else {
                lanes.push(fill);
            }
            j += 1;
        }
        Simd { lanes }
    }

    /// Compares two registers lane by lane.
    pub fn eq(&self, other: &Self) -> (mask: Vec<bool>)
        ensures
            mask@.len() == T::lanes_spec(),
            forall|j: int|
                0 <= j < mask@.len() ==> #[trigger] mask@[j] == T::eq_spec(self@[j], other@[j]),
    {
        proof {
            use_type_invariant(self);
            use_type_invariant(other);
        }
        let n = self.lanes.len();
        let mut mask: Vec<bool> = Vec::with_capacity(n);
        let mut j: usize = 0;
        while j < n
            invariant
                j <= n,
                n == self.lanes@.len(),
                n == other.lanes@.len(),
                mask@.len() == j,
                forall|k: int|
                    0 <= k < j ==> #[trigger] mask@[k] == T::eq_spec(self@[k], other@[k]),
            decreases n - j,
        {
            mask.push(T::eq(&self.lanes[j], &other.lanes[j]));
            j += 1;
        }
        mask
    }

    /// Applies `op` to each pair of lanes.
    pub fn bin_op<F: Fn(T::Native, T::Native) -> T::Native>(
        &self,
        other: &Self,
        op: F,
    ) -> (r: Self)
        requires
            forall|j: int|
                #![trigger self@[j], other@[j]]
                0 <= j < T::lanes_spec() ==> call_requires(op, (self@[j], other@[j])),
        ensures
            r@.len() == T::lanes_spec(),
            forall|j: int|
                0 <= j < r@.len() ==> call_ensures(op, (self@[j], other@[j]), #[trigger] r@[j]),
    {
        proof {
            use_type_invariant(self);
            use_type_invariant(other);
        }
        let n = self.lanes.len();
        let mut lanes: Vec<T::Native> = Vec::with_capacity(n);
        let mut j: usize = 0;
        while j < n
            invariant
                j <= n,
                n == T::lanes_spec(),
                n == self.lanes@.len(),
                n == other.lanes@.len(),
                forall|k: int|
                    #![trigger self@[k], other@[k]]
                    0 <= k < T::lanes_spec() ==> call_requires(op, (self@[k], other@[k])),
                lanes@.len() == j,
                forall|k: int|
                    0 <= k < j ==> call_ensures(op, (self@[k], other@[k]), #[trigger] lanes@[k]),
            decreases n - j,
        {
            assert(call_requires(op, (self@[j as int], other@[j as int])));
            lanes.push(op(self.lanes[j], other.lanes[j]));
            j += 1;
        }
        Simd { lanes }
    }

    /// Appends the first `count` lanes to `out`.
    pub(crate) fn write(&self, out: &mut Vec<T::Native>, count: usize)
        requires
            count <= T::lanes_spec(),
        ensures
            self@.len() == T::lanes_spec(),
            final(out)@ == old(out)@ + self@.take(count as int),
    {
        proof {
            use_type_invariant(self);
        }
        let ghost before = out@;
        let mut j: usize = 0;
        while j < count
            invariant
                j <= count <= self.lanes@.len(),
                out@ =~= before + self@.take(j as int),
            decreases count - j,
        {
            out.push(self.lanes[j]);
            j += 1;
        }
    }
}

/// Whether any lane of a mask is set.
pub(crate) fn mask_any(mask: &Vec<bool>) -> (r: bool)
    ensures
        r == exists|j: int| 0 <= j < mask@.len() && #[trigger] mask@[j],
{
    let n = mask.len();
    let mut j: usize = 0;
    while j < n
        invariant
            j <= n,
            n == mask@.len(),
            forall|k: int| 0 <= k < j ==> !#[trigger] mask@[k],
        decreases n - j,
    {
        if mask[j] {
            return true;
        }
        j += 1;
    }
    false
}

} // verus!
