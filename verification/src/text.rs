//! Fixed-capacity ASCII text fields.
//!
//! Symbols and participant identifiers are fixed-width ASCII fields on the
//! wire.  They are stored verbatim in a stack-allocated byte array of the
//! field's exact width — trailing padding spaces are preserved, since
//! downstream equality comparisons depend on the padded width.

use vstd::prelude::*;

verus! {

/// Whether every byte of `s` is ASCII.
pub open spec fn ascii_seq(s: Seq<u8>) -> bool {
    forall|i: int| 0 <= i < s.len() ==> s[i] < 128
}

/// A fixed-width four-byte ASCII field (market-participant identifiers).
#[derive(Debug, Clone, Copy, PartialEq, Eq)]
pub struct ArrayString4 {
    pub bytes: [u8; 4],
}

impl View for ArrayString4 {
    type V = Seq<u8>;

    open spec fn view(&self) -> Seq<u8> {
        self.bytes@
    }
}

impl ArrayString4 {
    /// Well-formed: all four bytes are ASCII.
    pub open spec fn wf(self) -> bool {
        ascii_seq(self.bytes@)
    }

    /// Builds the field when all four bytes are ASCII; `None` otherwise.
    pub fn new(bytes: [u8; 4]) -> (r: Option<ArrayString4>)
        ensures
            r matches Some(s) ==> s.bytes == bytes && s.wf(),
            r is None <==> !ascii_seq(bytes@),
    {
        let mut i: usize = 0;
        while i < 4
            invariant
                i <= 4,
                forall|j: int| 0 <= j < i ==> bytes@[j] < 128,
            decreases 4 - i,
        {
            if bytes[i] >= 128 {
                return None;
            }
            i += 1;
        }
        Some(ArrayString4 { bytes })
    }

    /// The stored bytes, padding included.
    pub fn as_bytes(&self) -> (r: &[u8; 4])
        ensures
            r@ == self@,
    {
        &self.bytes
    }
}

/// A fixed-width eight-byte ASCII field (stock symbols).
#[derive(Debug, Clone, Copy, PartialEq, Eq)]
pub struct ArrayString8 {
    pub bytes: [u8; 8],
}

impl View for ArrayString8 {
    type V = Seq<u8>;

    open spec fn view(&self) -> Seq<u8> {
        self.bytes@
    }
}

impl ArrayString8 {
    /// Well-formed: all eight bytes are ASCII.
    pub open spec fn wf(self) -> bool {
        ascii_seq(self.bytes@)
    }

    /// Builds the field when all eight bytes are ASCII; `None` otherwise.
    pub fn new(bytes: [u8; 8]) -> (r: Option<ArrayString8>)
        ensures
            r matches Some(s) ==> s.bytes == bytes && s.wf(),
            r is None <==> !ascii_seq(bytes@),
    {
        let mut i: usize = 0;
        while i < 8
            invariant
                i <= 8,
                forall|j: int| 0 <= j < i ==> bytes@[j] < 128,
            decreases 8 - i,
        {
            if bytes[i] >= 128 {
                return None;
            }
            i += 1;
        }
        Some(ArrayString8 { bytes })
    }

    /// The stored bytes, padding included.
    pub fn as_bytes(&self) -> (r: &[u8; 8])
        ensures
            r@ == self@,
    {
        &self.bytes
    }
}

} // verus!
