//! Arrays of plain values with optional validity bitmaps.

use std::sync::Arc;
use vstd::prelude::*;

use crate::bitmap::Bitmap;
use crate::datatypes::{
    ArrowPrimitiveType, Int16Type, Int32Type, Int64Type, Int8Type, UInt16Type, UInt32Type,
    UInt64Type, UInt8Type,
};

verus! {

/// One slot of an array: the value that is stored there, and whether it counts.
pub struct Slot<N> {
    pub value: N,
    pub valid: bool,
}

impl<N> Slot<N> {
    /// The slot as a reader of the array sees it: null, or a value.
    pub open spec fn content(self) -> Option<N> {
        if self.valid {
            Some(self.value)
        } else {
            None
        }
    }
}

/// The slots as a reader of the array sees them.
pub open spec fn contents<N>(slots: Seq<Slot<N>>) -> Seq<Option<N>> {
    Seq::new(slots.len(), |i: int| slots[i].content())
}

/// The values that the slots store, those beneath nulls too.
pub open spec fn stored<N>(slots: Seq<Slot<N>>) -> Seq<N> {
    Seq::new(slots.len(), |i: int| slots[i].value)
}

/// Slot `i` is valid in both sequences.
pub open spec fn both_valid<N>(left: Seq<Slot<N>>, right: Seq<Slot<N>>, i: int) -> bool {
    left[i].valid && right[i].valid
}

/// The storage that an array and its slices share.
pub struct ArrayData<N> {
    values: Vec<N>,
    null_bitmap: Option<Bitmap>,
}

/// An array of values of type `T::Native`, some of which may be null.
///
/// An array is a window on its storage, so a slice of it copies no values.
pub struct PrimitiveArray<T: ArrowPrimitiveType> {
    data: Arc<ArrayData<T::Native>>,
    offset: usize,
    len: usize,
}

/// An array of `i8`.
pub type Int8Array = PrimitiveArray<Int8Type>;

/// An array of `i16`.
pub type Int16Array = PrimitiveArray<Int16Type>;

/// An array of `i32`.
pub type Int32Array = PrimitiveArray<Int32Type>;

/// An array of `i64`.
pub type Int64Array = PrimitiveArray<Int64Type>;

/// An array of `u8`.
pub type UInt8Array = PrimitiveArray<UInt8Type>;

/// An array of `u16`.
pub type UInt16Array = PrimitiveArray<UInt16Type>;

/// An array of `u32`.
pub type UInt32Array = PrimitiveArray<UInt32Type>;

/// An array of `u64`.
pub type UInt64Array = PrimitiveArray<UInt64Type>;

/// `std::sync::Arc::clone`: a second pointer to the same storage.
#[verifier::external_body]
fn share<N>(data: &Arc<ArrayData<N>>) -> (r: Arc<ArrayData<N>>)
    ensures
        r == *data,
{
    Arc::clone(data)
}

impl<T: ArrowPrimitiveType> View for PrimitiveArray<T> {
    type V = Seq<Slot<T::Native>>;

    closed spec fn view(&self) -> Seq<Slot<T::Native>> {
        Seq::new(
            self.len as nat,
            |i: int|
                Slot {
                    value: self.data.values@[self.offset + i],
                    valid: match self.data.null_bitmap {
                        Some(b) => b@[self.offset + i],
                        None => true,
                    },
                },
        )
    }
}

impl<T: ArrowPrimitiveType> PrimitiveArray<T> {
    #[verifier::type_invariant]
    spec fn window_in_storage(self) -> bool {
        &&& self.offset + self.len <= usize::MAX
        &&& self.offset + self.len <= self.data.values@.len()
        &&& self.data.null_bitmap is Some ==> self.offset + self.len
            <= self.data.null_bitmap->Some_0@.len()
    }

    /// Whether the storage has a validity bitmap. Without one every slot is valid.
    pub closed spec fn has_null_bitmap(self) -> bool {
        self.data.null_bitmap is Some
    }

    /// The array is the whole of its storage: it starts at the first stored value and ends at the
    /// last.
    pub closed spec fn owns_storage(self) -> bool {
        self.offset == 0 && self.len == self.data.values@.len()
    }

    /// An array over `values`, whose slot `i` is null where bit `i` of `null_bitmap` is clear.
    pub(crate) fn from_parts(values: Vec<T::Native>, null_bitmap: Option<Bitmap>) -> (a: Self)
        requires
            null_bitmap is Some ==> values@.len() <= null_bitmap->Some_0@.len(),
        ensures
            a@.len() == values@.len(),
            a.owns_storage(),
            a.has_null_bitmap() == (null_bitmap is Some),
            forall|i: int|
                0 <= i < a@.len() ==> (#[trigger] a@[i]).value == values@[i] && a@[i].valid == (
                null_bitmap is Some ==> null_bitmap->Some_0@[i]),
    {
        let len = values.len();
        PrimitiveArray { data: Arc::new(ArrayData { values, null_bitmap }), offset: 0, len }
    }

    /// An array of `values`, none of them null.
    pub fn from_values(values: Vec<T::Native>) -> (a: Self)
        ensures
            a@.len() == values@.len(),
            a.owns_storage(),
            !a.has_null_bitmap(),
            forall|i: int|
                0 <= i < a@.len() ==> (#[trigger] a@[i]).valid && a@[i].value == values@[i],
    {
        Self::from_parts(values, None)
    }

    /// An array with a null for each `None`. A null slot stores the default value.
    pub fn from_options(options: Vec<Option<T::Native>>) -> (a: Self)
        ensures
            a@.len() == options@.len(),
            a.owns_storage(),
            a.has_null_bitmap(),
            forall|i: int|
                0 <= i < a@.len() ==> (#[trigger] a@[i]).content() == options@[i] && (
                !a@[i].valid ==> a@[i].value == T::default_spec()),
    {
        let len = options.len();
        let mut values: Vec<T::Native> = Vec::with_capacity(len);
        let mut bitmap = Bitmap::zeroed(len);
        let mut i: usize = 0;
        while i < len
            invariant
                i <= len,
                len == options@.len(),
                len <= bitmap@.len(),
                values@.len() == i,
                forall|j: int| 0 <= j < i ==> #[trigger] bitmap@[j] == (options@[j] is Some),
                forall|j: int|
                    0 <= j < i ==> #[trigger] values@[j] == match options@[j] {
                        Some(v) => v,
                        None => T::default_spec(),
                    },
                forall|j: int| i <= j < len ==> !#[trigger] bitmap@[j],
            decreases len - i,
        {
            match options[i] {
                Some(v) => {
                    values.push(v);
                    bitmap.set_bit(i);
                },
                None => {
                    values.push(T::default_value());
                },
            }
            i += 1;
        }
        Self::from_parts(values, Some(bitmap))
    }

    /// How many slots the array has.
    pub fn len(&self) -> (r: usize)
        ensures
            r == self@.len(),
    {
        self.len
    }

    /// The value stored in slot `i`, whether or not the slot is null.
    pub fn value(&self, i: usize) -> (r: T::Native)
        requires
            i < self@.len(),
        ensures
            r == self@[i as int].value,
    {
        proof {
            use_type_invariant(self);
        }
        self.data.values[self.offset + i]
    }

    /// Whether slot `i` holds a value.
    pub fn is_valid(&self, i: usize) -> (r: bool)
        requires
            i < self@.len(),
        ensures
            r == self@[i as int].valid,
    {
        proof {
            use_type_invariant(self);
        }
        match &self.data.null_bitmap {
            Some(b) => b.get_bit(self.offset + i),
            None => true,
        }
    }

    /// Whether slot `i` is null.
    pub fn is_null(&self, i: usize) -> (r: bool)
        requires
            i < self@.len(),
        ensures
            r == !self@[i as int].valid,
    {
        !self.is_valid(i)
    }

    /// Whether the storage has a validity bitmap.
    pub fn is_nullable(&self) -> (r: bool)
        ensures
            r == self.has_null_bitmap(),
            !r ==> forall|i: int| 0 <= i < self@.len() ==> (#[trigger] self@[i]).valid,
    {
        self.data.null_bitmap.is_some()
    }

    /// The window of `len` slots that starts at slot `offset`, over the same storage.
    pub fn slice(&self, offset: usize, len: usize) -> (a: Self)
        requires
            offset + len <= self@.len(),
        ensures
            a@ == self@.subrange(offset as int, offset + len),
            a.has_null_bitmap() == self.has_null_bitmap(),
    {
        proof {
            use_type_invariant(self);
        }
        let a = PrimitiveArray { data: share(&self.data), offset: self.offset + offset, len };
        assert(a@ =~= self@.subrange(offset as int, offset + len));
        a
    }
}

} // verus!
