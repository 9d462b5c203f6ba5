//! The capability boundary for byte-level reinterpretation: a type that can
//! be stored in the byte container implements [`FixedBytes`], which fixes the
//! exact byte image of each value and the decoding of such an image back to a
//! value. Every implementation carries proofs that the image has the declared
//! size and that decoding inverts encoding.

use vstd::prelude::*;

verus! {

/// A fixed-layout, bitwise-copyable type: each value has a byte image of a
/// fixed size, fully determined by the value, and the value can be recovered
/// from that image.
pub trait FixedBytes: Copy + Sized {
    /// The size of every value's byte image.
    spec fn size() -> nat;

    /// The byte image of this value.
    spec fn bytes_of(self) -> Seq<u8>;

    /// The value whose byte image is `bytes` (of interest only when `bytes`
    /// has length `Self::size()`).
    spec fn of_bytes(bytes: Seq<u8>) -> Self;

    /// Every byte image has exactly `Self::size()` bytes.
    proof fn bytes_len(self)
        ensures
            self.bytes_of().len() == Self::size(),
    ;

    /// Decoding a value's byte image yields the value back.
    proof fn round_trip(self)
        ensures
            Self::of_bytes(self.bytes_of()) == self,
    ;

    /// Appends this value's byte image to `out`.
    fn append_to(&self, out: &mut Vec<u8>)
        ensures
            final(out)@ == old(out)@ + self.bytes_of(),
    ;

    /// Decodes a value from a byte image of the right size.
    fn from_bytes(bytes: &[u8]) -> (r: Self)
        requires
            bytes@.len() == Self::size(),
        ensures
            r == Self::of_bytes(bytes@),
    ;
}

/// The concatenation of the byte images of a sequence of values, in order.
pub open spec fn concat_bytes<T: FixedBytes>(s: Seq<T>) -> Seq<u8>
    decreases s.len(),
{
    if s.len() == 0 {
        Seq::<u8>::empty()
    } else {
        concat_bytes(s.drop_last()) + s.last().bytes_of()
    }
}

/// Length law: the concatenated images of `s` occupy exactly
/// `s.len() * T::size()` bytes.
pub proof fn lemma_concat_bytes_len<T: FixedBytes>(s: Seq<T>)
    ensures
        concat_bytes(s).len() == s.len() * T::size(),
    decreases s.len(),
{
    if s.len() == 0 {
    } else {
        lemma_concat_bytes_len::<T>(s.drop_last());
        s.last().bytes_len();
        assert((s.len() - 1) * T::size() + T::size() == s.len() * T::size()) by (nonlinear_arith);
    }
}

/// Appending one value after a sequence concatenates its image at the end:
/// pushing values one at a time builds byte-identical content to one bulk
/// append of the whole sequence.
pub proof fn lemma_concat_bytes_push<T: FixedBytes>(s: Seq<T>, v: T)
    ensures
        concat_bytes(s.push(v)) == concat_bytes(s) + v.bytes_of(),
{
    assert(s.push(v).drop_last() =~= s);
    assert(s.push(v).last() == v);
}

/// The concatenated images of the first `i + 1` values extend those of the
/// first `i` values by the image of `s[i]`.
pub proof fn lemma_concat_bytes_take_snoc<T: FixedBytes>(s: Seq<T>, i: int)
    requires
        0 <= i < s.len(),
    ensures
        concat_bytes(s.take(i + 1)) == concat_bytes(s.take(i)) + s[i].bytes_of(),
{
    assert(s.take(i + 1).drop_last() =~= s.take(i));
    assert(s.take(i + 1).last() == s[i]);
}

} // verus!
