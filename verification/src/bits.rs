//! The storage of a bit matrix: a `BitVec` of the `bitvec` crate, seen as a
//! sequence of booleans.
//!
//! Nothing in this file is proved. `BitVec` is generic over traits of its
//! crate, so it is held in a struct that hides it, and what its methods do is
//! stated over [`bits_of`] as their documentation and source give it.

use bitvec::vec::BitVec;
use vstd::prelude::*;

verus! {

/// A `bitvec::vec::BitVec` with the default storage (`usize` words, `Lsb0`
/// order).
#[verifier::external_body]
pub struct Bits {
    inner: BitVec,
}

/// The bits that a bit vector holds, by index.
pub uninterp spec fn bits_of(bits: Bits) -> Seq<bool>;

/// The largest number of bits that a `BitVec` holds, `BitSlice::MAX_BITS`:
/// `usize::MAX >> 3`.
pub open spec fn max_bits() -> nat {
    (usize::MAX / 8) as nat
}

/// `BitVec::repeat`: a vector of `len` bits, each of them `bit`. The call
/// panics on a length above `BitSlice::MAX_BITS`.
#[verifier::external_body]
pub(crate) fn repeated_bits(bit: bool, len: usize) -> (bits: Bits)
    requires
        len <= max_bits(),
    ensures
        bits_of(bits) == Seq::new(len as nat, |i: int| bit),
{
    Bits { inner: BitVec::repeat(bit, len) }
}

/// `BitSlice::set`: writes `value` into the bit at `index` and leaves every
/// other bit as it was. The call panics on an index out of bounds.
#[verifier::external_body]
pub(crate) fn set_bit(bits: &mut Bits, index: usize, value: bool)
    requires
        index < bits_of(*old(bits)).len(),
    ensures
        bits_of(*final(bits)) == bits_of(*old(bits)).update(index as int, value),
{
    bits.inner.set(index, value);
}

/// `Index<usize>` of `BitSlice`: the bit at `index`. The call panics on an
/// index out of bounds.
#[verifier::external_body]
pub(crate) fn bit_at(bits: &Bits, index: usize) -> (bit: bool)
    requires
        index < bits_of(*bits).len(),
    ensures
        bit == bits_of(*bits)[index as int],
{
    bits.inner[index]
}

} // verus!
