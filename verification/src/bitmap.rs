//! Validity bitmaps: one bit per slot, least significant bit first within each byte.

use vstd::prelude::*;

verus! {

/// Bit `k` of `byte`, counted from the least significant one.
pub open spec fn byte_bit(byte: u8, k: int) -> bool {
    (byte >> (k as u8)) & 1 == 1
}

/// The bits that a run of bytes stands for.
pub open spec fn packed_bits(bytes: Seq<u8>) -> Seq<bool> {
    Seq::new(8 * bytes.len(), |i: int| byte_bit(bytes[i / 8], i % 8))
}

/// A packed sequence of bits.
pub struct Bitmap {
    bytes: Vec<u8>,
}

impl View for Bitmap {
    type V = Seq<bool>;

    closed spec fn view(&self) -> Seq<bool> {
        packed_bits(self.bytes@)
    }
}

proof fn lemma_or_sets_one_bit(byte: u8, k: u8)
    requires
        k < 8,
    ensures
        forall|j: int|
            0 <= j < 8 ==> #[trigger] byte_bit(byte | (1u8 << k), j) == (j == k || byte_bit(
                byte,
                j,
            )),
{
    assert forall|j: int| 0 <= j < 8 implies #[trigger] byte_bit(byte | (1u8 << k), j) == (j == k
        || byte_bit(byte, j)) by {
        let m = j as u8;
        assert(((byte | (1u8 << k)) >> m) & 1 == 1 <==> (m == k || (byte >> m) & 1 == 1))
            by (bit_vector)
            requires
                m < 8,
                k < 8,
        ;
    }
}

proof fn lemma_zero_byte_is_clear()
    ensures
        forall|j: int| 0 <= j < 8 ==> !#[trigger] byte_bit(0u8, j),
{
    assert forall|j: int| 0 <= j < 8 implies !#[trigger] byte_bit(0u8, j) by {
        let m = j as u8;
        assert((0u8 >> m) & 1 != 1) by (bit_vector)
            requires
                m < 8,
        ;
    }
}

impl Bitmap {
    /// A bitmap with room for at least `len` bits, all clear.
    pub fn zeroed(len: usize) -> (b: Bitmap)
        ensures
            len <= b@.len() < len + 8,
            forall|i: int| 0 <= i < b@.len() ==> !#[trigger] b@[i],
    {
        let n: usize = if len % 8 == 0 { len / 8 } else { len / 8 + 1 };
        let mut bytes: Vec<u8> = Vec::with_capacity(n);
        let mut k: usize = 0;
        while k < n
            invariant
                k <= n,
                bytes@.len() == k,
                forall|m: int| 0 <= m < k ==> bytes@[m] == 0u8,
            decreases n - k,
        {
            bytes.push(0u8);
            k += 1;
        }
        proof {
            lemma_zero_byte_is_clear();
        }
        Bitmap { bytes }
    }

    /// Whether bit `i` is set.
    pub fn get_bit(&self, i: usize) -> (r: bool)
        requires
            i < self@.len(),
        ensures
            r == self@[i as int],
    {
        (self.bytes[i / 8] >> ((i % 8) as u8)) & 1 == 1
    }

    /// Sets bit `i` and leaves every other bit alone.
    pub fn set_bit(&mut self, i: usize)
        requires
            i < old(self)@.len(),
        ensures
            final(self)@ == old(self)@.update(i as int, true),
    {
        let k: u8 = (i % 8) as u8;
        let byte: u8 = self.bytes[i / 8];
        self.bytes.set(i / 8, byte | (1u8 << k));
        proof {
            lemma_or_sets_one_bit(byte, k);
            assert(self@ =~= old(self)@.update(i as int, true));
        }
    }
}

} // verus!
