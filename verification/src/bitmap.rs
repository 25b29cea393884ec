//! The signer bitmap: one bit per entry of a stake snapshot, in snapshot order.
//!
//! The bits live in a `bitvec` bit-vector. Verified code builds and reads
//! them through the trusted functions of this module, which state what each
//! `bitvec` call does over [`bitmap_bits`], the sequence of bits a bitmap
//! holds.

use bitvec::vec::BitVec;
use vstd::prelude::*;

verus! {

/// A sequence of bits backed by `bitvec::vec::BitVec`.
///
/// Bit `i` is set when the partial signature of entry `i` of the stake
/// snapshot is included.
#[verifier::external_body]
#[derive(Debug, PartialEq, Eq, Hash)]
pub struct SignerBitmap {
    bits: BitVec,
}

/// The bits that a bitmap holds, first bit first.
pub uninterp spec fn bitmap_bits(b: SignerBitmap) -> Seq<bool>;

/// The greatest number of bits that a bit-vector can hold: an eighth of the
/// address space.
pub open spec fn max_bits() -> nat {
    (usize::MAX / 8) as nat
}

impl View for SignerBitmap {
    type V = Seq<bool>;

    open spec fn view(&self) -> Seq<bool> {
        bitmap_bits(*self)
    }
}

impl SignerBitmap {
    /// `BitVec::new`: a bit-vector that holds no bits.
    #[verifier::external_body]
    pub(crate) fn empty() -> (r: SignerBitmap)
        ensures
            bitmap_bits(r) == Seq::<bool>::empty(),
    {
        SignerBitmap { bits: BitVec::new() }
    }

    /// `BitVec::push`: appends one bit. The call panics when the bit-vector
    /// already holds as many bits as it can, so it must hold fewer.
    #[verifier::external_body]
    pub(crate) fn push(&mut self, bit: bool)
        requires
            bitmap_bits(*old(self)).len() < max_bits(),
        ensures
            bitmap_bits(*final(self)) == bitmap_bits(*old(self)).push(bit),
    {
        self.bits.push(bit)
    }

    /// `BitSlice::len`, reached through `BitVec`'s deref: the number of bits
    /// held.
    #[verifier::external_body]
    pub(crate) fn bit_count(&self) -> (n: usize)
        ensures
            n == bitmap_bits(*self).len(),
    {
        self.bits.len()
    }

    /// `BitSlice`'s `Index<usize>`: the bit at position `i`. The index
    /// operator panics past the end, so `i` must be in range.
    #[verifier::external_body]
    pub(crate) fn get(&self, i: usize) -> (bit: bool)
        requires
            i < bitmap_bits(*self).len(),
        ensures
            bit == bitmap_bits(*self)[i as int],
    {
        self.bits[i]
    }

    /// `BitVec`'s `Clone`: a bit-vector holding the same bits in the same
    /// order.
    #[verifier::external_body]
    pub(crate) fn copy(&self) -> (r: SignerBitmap)
        ensures
            bitmap_bits(r) == bitmap_bits(*self),
    {
        SignerBitmap { bits: self.bits.clone() }
    }

    /// The bitmap that holds the given bits in the given order.
    pub fn from_bools(bits: &[bool]) -> (r: SignerBitmap)
        requires
            bits@.len() <= max_bits(),
        ensures
            r@ == bits@,
    {
        let n: usize = bits.len();
        let mut r: SignerBitmap = SignerBitmap::empty();
        let mut i: usize = 0;
        while i < n
            invariant
                n == bits@.len(),
                n <= max_bits(),
                i <= n,
                r@ == bits@.subrange(0, i as int),
            decreases n - i,
        {
            r.push(bits[i]);
            i = i + 1;
        }
        r
    }

    /// The number of bits held.
    pub fn len(&self) -> (n: usize)
        ensures
            n == self@.len(),
    {
        self.bit_count()
    }

    /// The bit at position `i`, if the bitmap is that long.
    pub fn bit(&self, i: usize) -> (r: Option<bool>)
        ensures
            r == if i < self@.len() {
                Some(self@[i as int])
            } else {
                None
            },
    {
        if i < self.bit_count() {
            Some(self.get(i))
        } else {
            None
        }
    }

    /// Whether two bitmaps hold the same bits in the same order.
    pub fn same_bits(&self, other: &SignerBitmap) -> (r: bool)
        ensures
            r == (self@ == other@),
    {
        let n: usize = self.bit_count();
        if n != other.bit_count() {
            return false;
        }
        let mut i: usize = 0;
        while i < n
            invariant
                n == self@.len(),
                n == other@.len(),
                i <= n,
                forall|j: int| 0 <= j < i ==> self@[j] == other@[j],
            decreases n - i,
        {
            if self.get(i) != other.get(i) {
                return false;
            }
            i = i + 1;
        }
        proof {
            assert(self@ =~= other@);
        }
        true
    }

    /// The bits as a vector of booleans, first bit first.
    pub fn to_bools(&self) -> (out: Vec<bool>)
        ensures
            out@ == self@,
    {
        let len: usize = self.bit_count();
        let mut out: Vec<bool> = Vec::new();
        let mut i: usize = 0;
        while i < len
            invariant
                len == self@.len(),
                i <= len,
                out@ == self@.subrange(0, i as int),
            decreases len - i,
        {
            out.push(self.get(i));
            i = i + 1;
        }
        out
    }

    /// Counts the set bits.
    pub fn count_ones(&self) -> (n: usize)
        ensures
            n == count_set(self@, self@.len()),
    {
        let len: usize = self.bit_count();
        let mut n: usize = 0;
        let mut i: usize = 0;
        while i < len
            invariant
                len == self@.len(),
                i <= len,
                n <= i,
                n == count_set(self@, i as nat),
            decreases len - i,
        {
            if self.get(i) {
                n = n + 1;
            }
            i = i + 1;
        }
        n
    }
}

impl Clone for SignerBitmap {
    /// An independent bitmap that holds the same bits.
    fn clone(&self) -> (r: SignerBitmap)
        ensures
            r@ == self@,
    {
        self.copy()
    }
}

/// The number of set bits among the first `n` bits of `bits`.
pub open spec fn count_set(bits: Seq<bool>, n: nat) -> nat
    decreases n,
{
    if n == 0 || n > bits.len() {
        0
    } else {
        count_set(bits, (n - 1) as nat) + if bits[n - 1] {
            1nat
        } else {
            0nat
        }
    }
}

} // verus!
