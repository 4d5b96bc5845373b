//! Building blocks of the generated CAN messages: the integers that back a message and the error
//! of an accessor that cannot represent a value.

use vstd::prelude::*;

pub mod sealed;

verus! {

/// The little-endian bytes of the `n` low bytes of `v`.
pub open spec fn le_bytes_of(v: u64, n: nat) -> Seq<u8> {
    Seq::new(n, |i: int| ((v >> (8 * i) as u64) & 0xFF) as u8)
}

/// An unsigned integer that backs a CAN message, sent as its little-endian bytes.
pub trait CanRepr: sealed::Sealed + Copy {
    /// The bytes of the integer.
    type Bytes: View<V = Seq<u8>>;

    /// The integer, widened.
    spec fn spec_value(self) -> u64;

    /// The number of bytes of the integer.
    spec fn spec_width() -> nat;

    /// The little-endian bytes of the integer.
    fn to_le_bytes(self) -> (r: Self::Bytes)
        ensures
            r@ == le_bytes_of(self.spec_value(), Self::spec_width()),
    ;

    /// The bytes as a slice.
    fn bytes_as_slice(bytes: &Self::Bytes) -> (r: &[u8])
        ensures
            r@ == bytes@,
    ;
}

impl CanRepr for u8 {
    type Bytes = [u8; 1];

    open spec fn spec_value(self) -> u64 {
        self as u64
    }

    open spec fn spec_width() -> nat {
        1
    }

    fn bytes_as_slice(bytes: &[u8; 1]) -> (r: &[u8]) {
        bytes.as_slice()
    }

    fn to_le_bytes(self) -> (r: [u8; 1]) {
        let r = [self];
        assert((((self as u64) >> 0u64) & 0xFF) as u8 == self) by (bit_vector);
        assert(r@ =~= le_bytes_of(self as u64, 1));
        r
    }
}

impl CanRepr for u16 {
    type Bytes = [u8; 2];

    open spec fn spec_value(self) -> u64 {
        self as u64
    }

    open spec fn spec_width() -> nat {
        2
    }

    fn bytes_as_slice(bytes: &[u8; 2]) -> (r: &[u8]) {
        bytes.as_slice()
    }

    fn to_le_bytes(self) -> (r: [u8; 2]) {
        let v = self as u64;
        let r = [(v & 0xFF) as u8, ((v >> 8u64) & 0xFF) as u8];
        assert(v >> 0u64 == v) by (bit_vector);
        assert(r@ =~= le_bytes_of(v, 2));
        r
    }
}

impl CanRepr for u32 {
    type Bytes = [u8; 4];

    open spec fn spec_value(self) -> u64 {
        self as u64
    }

    open spec fn spec_width() -> nat {
        4
    }

    fn bytes_as_slice(bytes: &[u8; 4]) -> (r: &[u8]) {
        bytes.as_slice()
    }

    fn to_le_bytes(self) -> (r: [u8; 4]) {
        let v = self as u64;
        let r = [
            (v & 0xFF) as u8,
            ((v >> 8u64) & 0xFF) as u8,
            ((v >> 16u64) & 0xFF) as u8,
            ((v >> 24u64) & 0xFF) as u8,
        ];
        assert(v >> 0u64 == v) by (bit_vector);
        assert(r@ =~= le_bytes_of(v, 4));
        r
    }
}

impl CanRepr for u64 {
    type Bytes = [u8; 8];

    open spec fn spec_value(self) -> u64 {
        self
    }

    open spec fn spec_width() -> nat {
        8
    }

    fn bytes_as_slice(bytes: &[u8; 8]) -> (r: &[u8]) {
        bytes.as_slice()
    }

    fn to_le_bytes(self) -> (r: [u8; 8]) {
        let v = self;
        let r = [
            (v & 0xFF) as u8,
            ((v >> 8u64) & 0xFF) as u8,
            ((v >> 16u64) & 0xFF) as u8,
            ((v >> 24u64) & 0xFF) as u8,
            ((v >> 32u64) & 0xFF) as u8,
            ((v >> 40u64) & 0xFF) as u8,
            ((v >> 48u64) & 0xFF) as u8,
            ((v >> 56u64) & 0xFF) as u8,
        ];
        assert(v >> 0u64 == v) by (bit_vector);
        assert(r@ =~= le_bytes_of(v, 8));
        r
    }
}

/// The error of a generated `try_with_*` / `try_set_*` accessor when a physical value cannot be
/// represented in the bit width of a scaled field. The plain accessors saturate instead.
#[derive(Debug, Clone, Copy, PartialEq, Eq)]
pub struct OutOfRange {
    /// The field (snake_case accessor name) that rejected the value.
    pub field: &'static str,
}

} // verus!
