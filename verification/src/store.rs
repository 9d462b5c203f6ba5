//! The byte container itself: an owned, contiguous, growable sequence of
//! bytes, mutated only by append-style operations and truncation to empty.
//! Its abstract state is the byte sequence alone; capacity is never
//! observable through the contracts.

use vstd::prelude::*;

use crate::fixed::FixedBytes;
use crate::fixed::concat_bytes;
use crate::fixed::lemma_concat_bytes_len;
use crate::fixed::lemma_concat_bytes_take_snoc;

verus! {

/// A growable buffer of raw bytes. The stored bytes are always the
/// concatenation, in append order, of the byte images of the values appended
/// through the typed operations; the store keeps no type metadata, so the
/// caller must track which type each byte range came from.
#[derive(Debug)]
pub struct UntypedBytes {
    bytes: Vec<u8>,
}

impl View for UntypedBytes {
    type V = Seq<u8>;

    closed spec fn view(&self) -> Seq<u8> {
        self.bytes@
    }
}

impl Clone for UntypedBytes {
    fn clone(&self) -> (r: Self)
        ensures
            r@ == self@,
    {
        UntypedBytes { bytes: clone_bytes(&self.bytes) }
    }
}

impl Default for UntypedBytes {
    fn default() -> (r: Self)
        ensures
            r@ == Seq::<u8>::empty(),
    {
        UntypedBytes { bytes: Vec::new() }
    }
}

/// Copies a byte vector element by element.
fn clone_bytes(v: &Vec<u8>) -> (r: Vec<u8>)
    ensures
        r@ == v@,
{
    let mut r: Vec<u8> = Vec::new();
    let n = v.len();
    let mut i: usize = 0;
    while i < n
        invariant
            n == v@.len(),
            i <= n,
            r@ == v@.take(i as int),
        decreases n - i,
    {
        r.push(v[i]);
        assert(r@ =~= v@.take(i + 1));
        i += 1;
    }
    assert(v@.take(n as int) =~= v@);
    r
}

impl UntypedBytes {
    /// An empty store.
    pub fn new() -> (r: Self)
        ensures
            r@ == Seq::<u8>::empty(),
    {
        UntypedBytes { bytes: Vec::new() }
    }

    /// An empty store with at least `capacity` bytes reserved. Capacity is
    /// not observable: the abstract state is the same as `new()`'s.
    pub fn with_capacity(capacity: usize) -> (r: Self)
        ensures
            r@ == Seq::<u8>::empty(),
    {
        UntypedBytes { bytes: Vec::with_capacity(capacity) }
    }

    /// A store holding exactly the byte image of `value`.
    pub fn from_value<T: FixedBytes>(value: T) -> (r: Self)
        ensures
            r@ == value.bytes_of(),
            r@.len() == T::size(),
    {
        let mut r = Self::new();
        r.push(value);
        proof {
            value.bytes_len();
            assert(Seq::<u8>::empty() + value.bytes_of() =~= value.bytes_of());
        }
        r
    }

    /// A store holding the concatenated byte images of the elements of
    /// `values`, in order. Consumes `values`: its storage now backs the byte
    /// store and the typed buffer can no longer be used.
    pub fn from_vec<T: FixedBytes>(values: Vec<T>) -> (r: Self)
        ensures
            r@ == concat_bytes(values@),
            r@.len() == values@.len() * T::size(),
    {
        let mut r = Self::new();
        r.extend(values);
        proof {
            assert(Seq::<u8>::empty() + r@ =~= r@);
        }
        r
    }

    /// A store holding the concatenated byte images of the elements of
    /// `values`, in order.
    pub fn from_slice<T: FixedBytes>(values: &[T]) -> (r: Self)
        ensures
            r@ == concat_bytes(values@),
            r@.len() == values@.len() * T::size(),
    {
        let mut r = Self::with_capacity(values.len());
        r.extend_from_slice(values);
        proof {
            assert(Seq::<u8>::empty() + r@ =~= r@);
        }
        r
    }

    /// Whether the store holds no bytes.
    pub fn is_empty(&self) -> (r: bool)
        ensures
            r == (self@.len() == 0),
    {
        self.bytes.is_empty()
    }

    /// The number of stored bytes.
    pub fn len(&self) -> (r: usize)
        ensures
            r == self@.len(),
    {
        self.bytes.len()
    }

    /// Resets the store to empty, whatever it held before. Capacity may be
    /// retained, but that is not observable.
    pub fn clear(&mut self)
        ensures
            final(self)@ == Seq::<u8>::empty(),
            final(self)@.len() == 0,
    {
        self.bytes.clear()
    }

    /// Appends the byte image of `value` at the end of the store. Growth of
    /// the backing buffer never disturbs the bytes already stored.
    pub fn push<T: FixedBytes>(&mut self, value: T)
        ensures
            final(self)@ == old(self)@ + value.bytes_of(),
            final(self)@.len() == old(self)@.len() + T::size(),
    {
        value.append_to(&mut self.bytes);
        proof {
            value.bytes_len();
        }
    }

    /// Appends the concatenated byte images of the elements of `values`, in
    /// order: byte-identical to pushing each element one at a time.
    pub fn extend_from_slice<T: FixedBytes>(&mut self, values: &[T])
        ensures
            final(self)@ == old(self)@ + concat_bytes(values@),
            final(self)@.len() == old(self)@.len() + values@.len() * T::size(),
    {
        let n = values.len();
        let mut i: usize = 0;
        while i < n
            invariant
                n == values@.len(),
                i <= n,
                self@ == old(self)@ + concat_bytes(values@.take(i as int)),
            decreases n - i,
        {
            let v: T = *vstd::slice::slice_index_get(values, i);
            proof {
                lemma_concat_bytes_take_snoc(values@, i as int);
            }
            v.append_to(&mut self.bytes);
            assert(self@ =~= old(self)@ + concat_bytes(values@.take(i + 1)));
            i += 1;
        }
        proof {
            assert(values@.take(n as int) =~= values@);
            lemma_concat_bytes_len::<T>(values@);
        }
    }

    /// Appends the concatenated byte images of the elements of `values`, in
    /// iteration order, consuming the collection. The result is
    /// byte-identical to pushing each element one at a time.
    pub fn extend<T: FixedBytes>(&mut self, values: Vec<T>)
        ensures
            final(self)@ == old(self)@ + concat_bytes(values@),
            final(self)@.len() == old(self)@.len() + values@.len() * T::size(),
    {
        self.extend_from_slice(values.as_slice());
    }

    /// A read-only view of the raw byte sequence, suitable for bulk copying.
    pub fn as_slice(&self) -> (r: &[u8])
        ensures
            r@ == self@,
    {
        self.bytes.as_slice()
    }

    /// Reinterprets the entire stored byte sequence as one value of type
    /// `T`. The store must hold exactly `T::size()` bytes; the caller is
    /// responsible for having built the bytes from a value of type `T`.
    pub fn cast<T: FixedBytes>(&self) -> (r: T)
        requires
            self@.len() == T::size(),
        ensures
            r == T::of_bytes(self@),
    {
        T::from_bytes(self.bytes.as_slice())
    }
}

/// Round trip: a store built from a single value casts back to exactly that
/// value. Stated over the contracts of `from_value` and `cast`: the store's
/// bytes are `v.bytes_of()`, their length meets `cast`'s precondition, and
/// decoding them returns `v`.
pub proof fn lemma_value_round_trip<T: FixedBytes>(v: T)
    ensures
        T::of_bytes(v.bytes_of()) == v,
        v.bytes_of().len() == T::size(),
{
    v.round_trip();
    v.bytes_len();
}

} // verus!

