//! Error taxonomy of the decoder.
//!
//! A malformed stream produces a decode failure that names the offending
//! bytes; a byte source that gives out mid-frame produces a truncation
//! failure; an I/O failure of the source is passed through verbatim.  An
//! incomplete frame is never an error — it is an internal signal, resolved
//! by refilling the buffer.

use vstd::prelude::*;

verus! {

/// Declaration of the standard I/O error type, which byte sources report
/// and the decoder passes through without inspecting.
#[verifier::external_type_specification]
#[verifier::external_body]
pub struct ExIoError(std::io::Error);

/// Why a decode attempt failed.
#[derive(Debug, Clone, Copy, PartialEq, Eq, Structural)]
pub enum ParseErrorKind {
    /// The tag byte matches no entry of the message catalog.
    UnknownTag(u8),
    /// A one-byte enumeration field held a code outside its table.
    BadCode(u8),
    /// A two-byte enumeration field held a code outside its table.
    BadCodePair(u8, u8),
    /// A fixed-width text field held a non-ASCII byte.
    InvalidText(u8),
    /// The byte source was exhausted while a frame was partially buffered.
    UnexpectedEof,
}

/// What a pull on the message stream can fail with.
#[derive(Debug)]
pub enum Error {
    /// A decode failure, with the stream offset of the frame it was found
    /// in (the count of bytes consumed before that frame).
    Parse(ParseErrorKind, usize),
    /// An I/O failure of the byte source, passed through verbatim.
    Io(std::io::Error),
}

} // verus!
