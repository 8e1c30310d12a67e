use vstd::prelude::*;
use vstd::slice::slice_subrange;
use vstd::bytes::{
    lemma_auto_spec_u32_to_from_le_bytes, lemma_auto_spec_u64_to_from_le_bytes,
    spec_u32_from_le_bytes, spec_u32_to_le_bytes, spec_u64_from_le_bytes, spec_u64_to_le_bytes,
    u32_from_le_bytes, u32_to_le_bytes, u64_from_le_bytes, u64_to_le_bytes,
};

verus! {

/// A value that an iteration builds up, record by record.
///
/// The engine keeps it between two records as an untyped region of bytes, so
/// the type fixes a layout: a size that every value has, and an encoding that
/// loses nothing.
pub trait Accumulator: Sized {
    /// The number of bytes of the layout.
    spec fn size() -> nat;

    /// The value that an iteration starts from.
    spec fn initial() -> Self;

    /// The bytes that stand for this value.
    spec fn encode(&self) -> Seq<u8>;

    /// The value that `bytes` stand for.
    spec fn decode(bytes: Seq<u8>) -> Self;

    /// Every value fills the layout, and is read back from its bytes
    /// unchanged.
    proof fn layout(&self)
        ensures
            self.encode().len() == Self::size(),
            Self::decode(self.encode()) == *self,
    ;

    /// The number of bytes of the layout.
    fn width() -> (n: usize)
        requires
            Self::size() <= usize::MAX,
        ensures
            n == Self::size(),
    ;

    /// The value that an iteration starts from.
    fn empty() -> (value: Self)
        ensures
            value == Self::initial(),
    ;

    /// Copies this value out into bytes.
    fn store(&self) -> (bytes: Vec<u8>)
        ensures
            bytes@ == self.encode(),
    ;

    /// Copies a value in from `bytes`.
    fn load(bytes: &[u8]) -> (value: Self)
        requires
            bytes@.len() == Self::size(),
        ensures
            value == Self::decode(bytes@),
    ;
}

/// A 32-bit counter, laid out as four bytes, lowest first.
impl Accumulator for u32 {
    open spec fn size() -> nat {
        4
    }

    open spec fn initial() -> u32 {
        0
    }

    open spec fn encode(&self) -> Seq<u8> {
        spec_u32_to_le_bytes(*self)
    }

    open spec fn decode(bytes: Seq<u8>) -> u32 {
        spec_u32_from_le_bytes(bytes)
    }

    proof fn layout(&self) {
        lemma_auto_spec_u32_to_from_le_bytes();
        assert(spec_u32_to_le_bytes(*self).len() == 4);
    }

    fn width() -> (n: usize) {
        4
    }

    fn empty() -> (value: u32) {
        0
    }

    fn store(&self) -> (bytes: Vec<u8>) {
        u32_to_le_bytes(*self)
    }

    fn load(bytes: &[u8]) -> (value: u32) {
        u32_from_le_bytes(bytes)
    }
}

/// A 64-bit counter, laid out as eight bytes, lowest first.
impl Accumulator for u64 {
    open spec fn size() -> nat {
        8
    }

    open spec fn initial() -> u64 {
        0
    }

    open spec fn encode(&self) -> Seq<u8> {
        spec_u64_to_le_bytes(*self)
    }

    open spec fn decode(bytes: Seq<u8>) -> u64 {
        spec_u64_from_le_bytes(bytes)
    }

    proof fn layout(&self) {
        lemma_auto_spec_u64_to_from_le_bytes();
    }

    fn width() -> (n: usize) {
        8
    }

    fn empty() -> (value: u64) {
        0
    }

    fn store(&self) -> (bytes: Vec<u8>) {
        u64_to_le_bytes(*self)
    }

    fn load(bytes: &[u8]) -> (value: u64) {
        u64_from_le_bytes(bytes)
    }
}

/// Two accumulators side by side: the bytes of the first, then the bytes of
/// the second.
impl<A: Accumulator, B: Accumulator> Accumulator for (A, B) {
    open spec fn size() -> nat {
        A::size() + B::size()
    }

    open spec fn initial() -> (A, B) {
        (A::initial(), B::initial())
    }

    open spec fn encode(&self) -> Seq<u8> {
        self.0.encode() + self.1.encode()
    }

    open spec fn decode(bytes: Seq<u8>) -> (A, B) {
        (
            A::decode(bytes.subrange(0, A::size() as int)),
            B::decode(bytes.subrange(A::size() as int, bytes.len() as int)),
        )
    }

    proof fn layout(&self) {
        self.0.layout();
        self.1.layout();
        let bytes = self.encode();
        assert(bytes.subrange(0, A::size() as int) == self.0.encode());
        assert(bytes.subrange(A::size() as int, bytes.len() as int) == self.1.encode());
    }

    fn width() -> (n: usize) {
        A::width() + B::width()
    }

    fn empty() -> (value: (A, B)) {
        (A::empty(), B::empty())
    }

    fn store(&self) -> (bytes: Vec<u8>) {
        let mut bytes = self.0.store();
        let mut second = self.1.store();
        bytes.append(&mut second);
        bytes
    }

    fn load(bytes: &[u8]) -> (value: (A, B)) {
        let total = bytes.len();
        let n = A::width();
        let first = A::load(slice_subrange(bytes, 0, n));
        let second = B::load(slice_subrange(bytes, n, total));
        (first, second)
    }
}

} // verus!
