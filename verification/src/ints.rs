//! [`FixedBytes`] implementations for the fixed-width integer types. The
//! byte image of each value is its little-endian representation, which is
//! the native memory layout on little-endian hosts; no cross-architecture
//! normalization is promised. Signed values are encoded through their
//! two's-complement unsigned counterpart of the same width.

use vstd::prelude::*;

use crate::fixed::FixedBytes;

verus! {

/// Appends every byte of `bs` to `out`, in order.
fn push_all(out: &mut Vec<u8>, bs: &Vec<u8>)
    ensures
        final(out)@ == old(out)@ + bs@,
{
    let n = bs.len();
    let mut i: usize = 0;
    while i < n
        invariant
            n == bs@.len(),
            i <= n,
            out@ == old(out)@ + bs@.take(i as int),
        decreases n - i,
    {
        out.push(bs[i]);
        assert(out@ =~= old(out)@ + bs@.take(i + 1));
        i += 1;
    }
    assert(bs@.take(n as int) =~= bs@);
}

impl FixedBytes for u8 {
    open spec fn size() -> nat {
        1
    }

    open spec fn bytes_of(self) -> Seq<u8> {
        seq![self]
    }

    open spec fn of_bytes(bytes: Seq<u8>) -> u8 {
        bytes[0]
    }

    proof fn bytes_len(self) {
    }

    proof fn round_trip(self) {
        assert(seq![self][0] == self);
    }

    fn append_to(&self, out: &mut Vec<u8>) {
        out.push(*self);
        assert(out@ =~= old(out)@ + seq![*self]);
    }

    fn from_bytes(bytes: &[u8]) -> (r: u8) {
        *vstd::slice::slice_index_get(bytes, 0)
    }
}

impl FixedBytes for i8 {
    open spec fn size() -> nat {
        1
    }

    open spec fn bytes_of(self) -> Seq<u8> {
        seq![self as u8]
    }

    open spec fn of_bytes(bytes: Seq<u8>) -> i8 {
        bytes[0] as i8
    }

    proof fn bytes_len(self) {
    }

    proof fn round_trip(self) {
        let x: i8 = self;
        assert(seq![x as u8][0] == x as u8);
        assert((x as u8) as i8 == x) by (bit_vector);
    }

    fn append_to(&self, out: &mut Vec<u8>) {
        let b: u8 = #[verifier::truncate] (*self as u8);
        out.push(b);
        assert(out@ =~= old(out)@ + seq![b]);
    }

    fn from_bytes(bytes: &[u8]) -> (r: i8) {
        let b: u8 = *vstd::slice::slice_index_get(bytes, 0);
        #[verifier::truncate] (b as i8)
    }
}

impl FixedBytes for u16 {
    open spec fn size() -> nat {
        2
    }

    open spec fn bytes_of(self) -> Seq<u8> {
        vstd::bytes::spec_u16_to_le_bytes(self)
    }

    open spec fn of_bytes(bytes: Seq<u8>) -> u16 {
        vstd::bytes::spec_u16_from_le_bytes(bytes)
    }

    proof fn bytes_len(self) {
        vstd::bytes::lemma_auto_spec_u16_to_from_le_bytes();
    }

    proof fn round_trip(self) {
        vstd::bytes::lemma_auto_spec_u16_to_from_le_bytes();
        assert(vstd::bytes::spec_u16_to_le_bytes(self).len() == 2);
    }

    fn append_to(&self, out: &mut Vec<u8>) {
        let bs = vstd::bytes::u16_to_le_bytes(*self);
        push_all(out, &bs);
    }

    fn from_bytes(bytes: &[u8]) -> (r: u16) {
        vstd::bytes::u16_from_le_bytes(bytes)
    }
}

impl FixedBytes for i16 {
    open spec fn size() -> nat {
        2
    }

    open spec fn bytes_of(self) -> Seq<u8> {
        vstd::bytes::spec_u16_to_le_bytes(self as u16)
    }

    open spec fn of_bytes(bytes: Seq<u8>) -> i16 {
        vstd::bytes::spec_u16_from_le_bytes(bytes) as i16
    }

    proof fn bytes_len(self) {
        vstd::bytes::lemma_auto_spec_u16_to_from_le_bytes();
    }

    proof fn round_trip(self) {
        vstd::bytes::lemma_auto_spec_u16_to_from_le_bytes();
        let x: i16 = self;
        assert(vstd::bytes::spec_u16_to_le_bytes(x as u16).len() == 2);
        assert((x as u16) as i16 == x) by (bit_vector);
    }

    fn append_to(&self, out: &mut Vec<u8>) {
        let u: u16 = #[verifier::truncate] (*self as u16);
        let bs = vstd::bytes::u16_to_le_bytes(u);
        push_all(out, &bs);
    }

    fn from_bytes(bytes: &[u8]) -> (r: i16) {
        let u: u16 = vstd::bytes::u16_from_le_bytes(bytes);
        #[verifier::truncate] (u as i16)
    }
}

impl FixedBytes for u32 {
    open spec fn size() -> nat {
        4
    }

    open spec fn bytes_of(self) -> Seq<u8> {
        vstd::bytes::spec_u32_to_le_bytes(self)
    }

    open spec fn of_bytes(bytes: Seq<u8>) -> u32 {
        vstd::bytes::spec_u32_from_le_bytes(bytes)
    }

    proof fn bytes_len(self) {
        vstd::bytes::lemma_auto_spec_u32_to_from_le_bytes();
    }

    proof fn round_trip(self) {
        vstd::bytes::lemma_auto_spec_u32_to_from_le_bytes();
        assert(vstd::bytes::spec_u32_to_le_bytes(self).len() == 4);
    }

    fn append_to(&self, out: &mut Vec<u8>) {
        let bs = vstd::bytes::u32_to_le_bytes(*self);
        push_all(out, &bs);
    }

    fn from_bytes(bytes: &[u8]) -> (r: u32) {
        vstd::bytes::u32_from_le_bytes(bytes)
    }
}

impl FixedBytes for i32 {
    open spec fn size() -> nat {
        4
    }

    open spec fn bytes_of(self) -> Seq<u8> {
        vstd::bytes::spec_u32_to_le_bytes(self as u32)
    }

    open spec fn of_bytes(bytes: Seq<u8>) -> i32 {
        vstd::bytes::spec_u32_from_le_bytes(bytes) as i32
    }

    proof fn bytes_len(self) {
        vstd::bytes::lemma_auto_spec_u32_to_from_le_bytes();
    }

    proof fn round_trip(self) {
        vstd::bytes::lemma_auto_spec_u32_to_from_le_bytes();
        let x: i32 = self;
        assert(vstd::bytes::spec_u32_to_le_bytes(x as u32).len() == 4);
        assert((x as u32) as i32 == x) by (bit_vector);
    }

    fn append_to(&self, out: &mut Vec<u8>) {
        let u: u32 = #[verifier::truncate] (*self as u32);
        let bs = vstd::bytes::u32_to_le_bytes(u);
        push_all(out, &bs);
    }

    fn from_bytes(bytes: &[u8]) -> (r: i32) {
        let u: u32 = vstd::bytes::u32_from_le_bytes(bytes);
        #[verifier::truncate] (u as i32)
    }
}

impl FixedBytes for u64 {
    open spec fn size() -> nat {
        8
    }

    open spec fn bytes_of(self) -> Seq<u8> {
        vstd::bytes::spec_u64_to_le_bytes(self)
    }

    open spec fn of_bytes(bytes: Seq<u8>) -> u64 {
        vstd::bytes::spec_u64_from_le_bytes(bytes)
    }

    proof fn bytes_len(self) {
        vstd::bytes::lemma_auto_spec_u64_to_from_le_bytes();
    }

    proof fn round_trip(self) {
        vstd::bytes::lemma_auto_spec_u64_to_from_le_bytes();
    }

    fn append_to(&self, out: &mut Vec<u8>) {
        let bs = vstd::bytes::u64_to_le_bytes(*self);
        push_all(out, &bs);
    }

    fn from_bytes(bytes: &[u8]) -> (r: u64) {
        vstd::bytes::u64_from_le_bytes(bytes)
    }
}

impl FixedBytes for i64 {
    open spec fn size() -> nat {
        8
    }

    open spec fn bytes_of(self) -> Seq<u8> {
        vstd::bytes::spec_u64_to_le_bytes(self as u64)
    }

    open spec fn of_bytes(bytes: Seq<u8>) -> i64 {
        vstd::bytes::spec_u64_from_le_bytes(bytes) as i64
    }

    proof fn bytes_len(self) {
        vstd::bytes::lemma_auto_spec_u64_to_from_le_bytes();
    }

    proof fn round_trip(self) {
        vstd::bytes::lemma_auto_spec_u64_to_from_le_bytes();
        let x: i64 = self;
        assert((x as u64) as i64 == x) by (bit_vector);
    }

    fn append_to(&self, out: &mut Vec<u8>) {
        let u: u64 = #[verifier::truncate] (*self as u64);
        let bs = vstd::bytes::u64_to_le_bytes(u);
        push_all(out, &bs);
    }

    fn from_bytes(bytes: &[u8]) -> (r: i64) {
        let u: u64 = vstd::bytes::u64_from_le_bytes(bytes);
        #[verifier::truncate] (u as i64)
    }
}

} // verus!
