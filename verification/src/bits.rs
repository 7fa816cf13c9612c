//! Bit vectors of the `bitvec` crate, least significant bit first in each byte.

use bitvec::order::Lsb0;
use bitvec::vec::BitVec;
use vstd::prelude::*;

verus! {

/// A `bitvec::vec::BitVec<Lsb0, u8>`: a growable vector of bits, packed into bytes.
#[verifier::external_body]
pub struct BitVector {
    bits: BitVec<Lsb0, u8>,
}

/// The live bits of a bit vector, first to last.
pub uninterp spec fn bits_of(v: BitVector) -> Seq<bool>;

/// The most bits that a bit vector can hold: `bitvec` keeps three bits of the length word.
pub open spec fn max_bits() -> int {
    usize::MAX as int / 8
}

/// `len` copies of `bit`.
pub open spec fn repeated(bit: bool, len: nat) -> Seq<bool> {
    Seq::new(len, |i: int| bit)
}

/// Calls `bitvec::vec::BitVec::repeat`, which is what `bitvec![Lsb0, u8; bit; len]` expands to.
///
/// Taken on trust: the result holds `len` live bits, each of them `bit`. A length above the
/// maximum makes the call panic and is left out.
#[verifier::external_body]
pub(crate) fn bitvec_repeat(bit: bool, len: usize) -> (res: BitVector)
    requires
        len <= max_bits(),
    ensures
        bits_of(res) == repeated(bit, len as nat),
{
    BitVector { bits: BitVec::<Lsb0, u8>::repeat(bit, len) }
}

/// Calls `bitvec::vec::BitVec::push`.
///
/// Taken on trust: the bits held before stay in place and `bit` follows them. A full vector
/// makes the call panic and is left out.
#[verifier::external_body]
pub(crate) fn bitvec_push(v: &mut BitVector, bit: bool)
    requires
        bits_of(*old(v)).len() < max_bits(),
    ensures
        bits_of(*final(v)) == bits_of(*old(v)).push(bit),
{
    v.bits.push(bit);
}

/// Calls `clone` of `bitvec::vec::BitVec`.
///
/// Taken on trust: the copy holds the same bits in the same order.
#[verifier::external_body]
pub(crate) fn bitvec_clone(v: &BitVector) -> (res: BitVector)
    ensures
        bits_of(res) == bits_of(*v),
{
    BitVector { bits: v.bits.clone() }
}

/// Calls `bitvec::slice::BitSlice::iter` and hands each bit out by value.
///
/// Taken on trust: the iterator walks the live bits from first to last.
#[verifier::external_body]
fn bitvec_to_vec(v: &BitVector) -> (res: Vec<bool>)
    ensures
        res@ == bits_of(*v),
{
    v.bits.iter().by_val().collect()
}

impl View for BitVector {
    type V = Seq<bool>;

    open spec fn view(&self) -> Seq<bool> {
        bits_of(*self)
    }
}

impl BitVector {
    /// The bits as plain values.
    pub fn to_vec(&self) -> (res: Vec<bool>)
        ensures
            res@ == self@,
    {
        bitvec_to_vec(self)
    }
}

} // verus!
