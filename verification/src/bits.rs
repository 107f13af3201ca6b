//! The bit vector behind the frame buffer, and how bits sit in bytes.
//!
//! Bits are numbered from the most significant bit of each byte: bit `i` of a
//! buffer is bit `7 - i % 8` of byte `i / 8`.

use bitvec::field::BitField;
use bitvec::order::Msb0;
use bitvec::vec::BitVec;
use vstd::prelude::*;

verus! {

/// Bit `k` of `byte`, counted from the most significant bit (`k` in `0..8`).
pub open spec fn msb_bit(byte: u8, k: int) -> bool {
    (byte >> ((7 - k) as u8)) & 1u8 == 1u8
}

/// The bits of a run of bytes, eight to a byte, most significant bit first.
pub open spec fn unpack(bytes: Seq<u8>) -> Seq<bool> {
    Seq::new(8 * bytes.len(), |i: int| msb_bit(bytes[i / 8], i % 8))
}

/// The number of bytes that hold `bits` bits.
pub open spec fn bytes_for(bits: nat) -> nat {
    (bits + 7) / 8
}

/// `count` cleared bits.
pub open spec fn zeros(count: nat) -> Seq<bool> {
    Seq::new(count, |i: int| false)
}

/// The largest number of bits that a bit vector can hold.
pub open spec fn max_bits() -> nat {
    (usize::MAX / 8) as nat
}

/// A byte is known by its eight bits.
pub proof fn lemma_byte_from_bits(a: u8, b: u8)
    requires
        forall|k: int| 0 <= k < 8 ==> msb_bit(a, k) == msb_bit(b, k),
    ensures
        a == b,
{
    assert(msb_bit(a, 0) == msb_bit(b, 0));
    assert(msb_bit(a, 1) == msb_bit(b, 1));
    assert(msb_bit(a, 2) == msb_bit(b, 2));
    assert(msb_bit(a, 3) == msb_bit(b, 3));
    assert(msb_bit(a, 4) == msb_bit(b, 4));
    assert(msb_bit(a, 5) == msb_bit(b, 5));
    assert(msb_bit(a, 6) == msb_bit(b, 6));
    assert(msb_bit(a, 7) == msb_bit(b, 7));
    assert(a == b) by (bit_vector)
        requires
            ((a >> 7u8) & 1u8 == 1u8) == ((b >> 7u8) & 1u8 == 1u8),
            ((a >> 6u8) & 1u8 == 1u8) == ((b >> 6u8) & 1u8 == 1u8),
            ((a >> 5u8) & 1u8 == 1u8) == ((b >> 5u8) & 1u8 == 1u8),
            ((a >> 4u8) & 1u8 == 1u8) == ((b >> 4u8) & 1u8 == 1u8),
            ((a >> 3u8) & 1u8 == 1u8) == ((b >> 3u8) & 1u8 == 1u8),
            ((a >> 2u8) & 1u8 == 1u8) == ((b >> 2u8) & 1u8 == 1u8),
            ((a >> 1u8) & 1u8 == 1u8) == ((b >> 1u8) & 1u8 == 1u8),
            ((a >> 0u8) & 1u8 == 1u8) == ((b >> 0u8) & 1u8 == 1u8),
    ;
}

/// Bit `i` of a run of bytes is bit `i % 8` of byte `i / 8`.
pub proof fn lemma_unpack_index(bytes: Seq<u8>, byte: int, k: int)
    requires
        0 <= byte < bytes.len(),
        0 <= k < 8,
    ensures
        unpack(bytes)[8 * byte + k] == msb_bit(bytes[byte], k),
{
    assert((8 * byte + k) / 8 == byte && (8 * byte + k) % 8 == k) by (nonlinear_arith)
        requires
            0 <= k < 8,
    ;
}

/// Two runs of bytes with the same bits are the same bytes.
pub proof fn lemma_unpack_injective(a: Seq<u8>, b: Seq<u8>)
    requires
        unpack(a) == unpack(b),
    ensures
        a == b,
{
    assert(unpack(a).len() == 8 * a.len());
    assert(unpack(b).len() == 8 * b.len());
    assert(a.len() == b.len());
    assert forall|j: int| 0 <= j < a.len() implies a[j] == b[j] by {
        assert forall|k: int| 0 <= k < 8 implies msb_bit(a[j], k) == msb_bit(b[j], k) by {
            lemma_unpack_index(a, j, k);
            lemma_unpack_index(b, j, k);
        }
        lemma_byte_from_bits(a[j], b[j]);
    }
    assert(a =~= b);
}

/// The bits of bytes after the first are the bits after the first eight.
pub proof fn lemma_unpack_skip_first(bytes: Seq<u8>)
    requires
        bytes.len() >= 1,
    ensures
        unpack(bytes.skip(1)) == unpack(bytes).skip(8),
{
    let rest = bytes.skip(1);
    assert forall|i: int| 0 <= i < 8 * rest.len() implies unpack(rest)[i] == unpack(bytes)[i
        + 8] by {
        assert((i + 8) / 8 == i / 8 + 1 && (i + 8) % 8 == i % 8) by (nonlinear_arith);
    }
    assert(unpack(rest) =~= unpack(bytes).skip(8));
}

/// A `bitvec::vec::BitVec<Msb0, u8>`: a growable vector of bits, packed into
/// bytes most significant bit first. Verus sees nothing of what is inside;
/// what it holds is named by [`stored_bits`] and [`live_len`].
#[verifier::external_body]
pub struct BitBuffer {
    bits: BitVec<Msb0, u8>,
}

/// Every bit of the bytes that a bit buffer occupies, first byte first and
/// most significant bit first: the bits it holds, then the rest of its last
/// byte.
pub uninterp spec fn stored_bits(b: BitBuffer) -> Seq<bool>;

/// The number of bits that a bit buffer holds.
pub uninterp spec fn live_len(b: BitBuffer) -> nat;

impl BitBuffer {
    /// The bits that the buffer holds.
    pub open spec fn view(&self) -> Seq<bool> {
        stored_bits(*self).take(live_len(*self) as int)
    }

    /// The buffer occupies whole bytes, no more of them than its bits need,
    /// and what is left of the last byte is cleared.
    pub open spec fn tidy(&self) -> bool {
        &&& stored_bits(*self).len() == 8 * bytes_for(live_len(*self))
        &&& forall|i: int|
            live_len(*self) <= i < stored_bits(*self).len() ==> !#[trigger] stored_bits(*self)[i]
    }

    /// `BitVec::new`: a buffer that holds no bit and occupies no byte.
    #[verifier::external_body]
    pub(crate) fn new() -> (b: Self)
        ensures
            live_len(b) == 0,
            stored_bits(b).len() == 0,
    {
        BitBuffer { bits: BitVec::new() }
    }

    /// `BitVec::with_capacity`: a buffer with room for `capacity` bits, which
    /// holds no bit and occupies no byte. The call panics above the largest
    /// length of a bit vector.
    #[verifier::external_body]
    pub(crate) fn with_capacity(capacity: usize) -> (b: Self)
        requires
            capacity <= max_bits(),
        ensures
            live_len(b) == 0,
            stored_bits(b).len() == 0,
    {
        BitBuffer { bits: BitVec::with_capacity(capacity) }
    }

    /// `BitVec::resize`, used to grow: the buffer then holds `new_len` bits,
    /// the old ones followed by copies of `value`. It occupies the bytes that
    /// `new_len` bits need; bytes that it newly occupies start out cleared,
    /// and bits beyond `new_len` in a byte that it occupied before are left as
    /// they were. The call panics above the largest length of a bit vector.
    #[verifier::external_body]
    pub(crate) fn resize(&mut self, new_len: usize, value: bool)
        requires
            live_len(*old(self)) <= new_len <= max_bits(),
        ensures
            live_len(*final(self)) == new_len,
            stored_bits(*final(self)).len() == 8 * bytes_for(new_len as nat),
            forall|i: int|
                0 <= i < stored_bits(*final(self)).len() ==> #[trigger] stored_bits(*final(self))[i]
                    == if live_len(*old(self)) <= i < new_len {
                    value
                } else if i < stored_bits(*old(self)).len() {
                    stored_bits(*old(self))[i]
                } else {
                    false
                },
    {
        self.bits.resize(new_len, value)
    }

    /// `BitSlice::set`: bit `index` becomes `value` and nothing else changes.
    /// The call panics on an index that is not below the length.
    #[verifier::external_body]
    pub(crate) fn set(&mut self, index: usize, value: bool)
        requires
            index < live_len(*old(self)),
        ensures
            live_len(*final(self)) == live_len(*old(self)),
            stored_bits(*final(self)) == stored_bits(*old(self)).update(index as int, value),
        no_unwind
    {
        self.bits.set(index, value)
    }

    /// Indexing a `BitSlice` by `usize`: the bit at `index`. The call panics
    /// on an index that is not below the length.
    #[verifier::external_body]
    pub(crate) fn get(&self, index: usize) -> (bit: bool)
        requires
            index < live_len(*self),
        ensures
            bit == stored_bits(*self)[index as int],
    {
        self.bits[index]
    }

    /// `BitField::store` on the first eight bits: they become the bits of
    /// `value`, most significant first, and nothing else changes. The call
    /// panics on a buffer of fewer than eight bits.
    #[verifier::external_body]
    pub(crate) fn store_first_byte(&mut self, value: u8)
        requires
            8 <= live_len(*old(self)),
        ensures
            live_len(*final(self)) == live_len(*old(self)),
            stored_bits(*final(self)) == unpack(seq![value]) + stored_bits(*old(self)).skip(8),
    {
        self.bits[..8].store(value)
    }

    /// `BitVec::extend_from_bitslice`: the bits of `other` are appended. The
    /// buffer then occupies the bytes that its new length needs; bytes that
    /// it newly occupies are cleared beyond the appended bits, and bits beyond
    /// the new length in a byte that it occupied before are left as they
    /// were. The call panics above the largest length of a bit vector.
    #[verifier::external_body]
    pub(crate) fn extend_from_bitslice(&mut self, other: &BitBuffer)
        requires
            live_len(*old(self)) + live_len(*other) <= max_bits(),
        ensures
            live_len(*final(self)) == live_len(*old(self)) + live_len(*other),
            stored_bits(*final(self)).len() == 8 * bytes_for(live_len(*final(self))),
            forall|i: int|
                0 <= i < stored_bits(*final(self)).len() ==> #[trigger] stored_bits(*final(self))[i]
                    == if live_len(*old(self)) <= i < live_len(*final(self)) {
                    stored_bits(*other)[i - live_len(*old(self))]
                } else if i < stored_bits(*old(self)).len() {
                    stored_bits(*old(self))[i]
                } else {
                    false
                },
    {
        self.bits.extend_from_bitslice(&other.bits)
    }

    /// `BitVec::as_raw_slice`, copied out: the bytes that the buffer occupies.
    #[verifier::external_body]
    pub(crate) fn as_raw_slice(&self) -> (bytes: Vec<u8>)
        ensures
            unpack(bytes@) == stored_bits(*self),
    {
        self.bits.as_raw_slice().to_vec()
    }
}

} // verus!
