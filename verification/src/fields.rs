//! Primitive field decoders.
//!
//! Every wire field is one of: a big-endian unsigned integer of 2, 4, 6 or
//! 8 bytes, a one-byte `Y`/`N` boolean, a tri-state optional boolean, a
//! one- or two-byte enumeration code, or a fixed-width ASCII text field.
//! Each decoder's contract equates its result with a spec function of the
//! bytes alone; beside each spec decoder stands a ghost encoder and a proof
//! that decoding the encoded bytes gives the value back.

use vstd::prelude::*;
use vstd::arithmetic::div_mod::{
    lemma_fundamental_div_mod, lemma_div_denominator, lemma_div_is_ordered,
};
use crate::text::{ascii_seq, ArrayString4, ArrayString8};

verus! {

// ---------------------------------------------------------------------
// Big-endian unsigned integers
// ---------------------------------------------------------------------

/// The 16-bit big-endian integer at offset `i` of `s`.
pub open spec fn spec_be_u16(s: Seq<u8>, i: int) -> u16 {
    (s[i] * 0x100 + s[i + 1]) as u16
}

/// The 32-bit big-endian integer at offset `i` of `s`.
pub open spec fn spec_be_u32(s: Seq<u8>, i: int) -> u32 {
    (s[i] * 0x100_0000 + s[i + 1] * 0x1_0000 + s[i + 2] * 0x100 + s[i + 3]) as u32
}

/// The 48-bit big-endian integer at offset `i` of `s`, widened to 64 bits.
pub open spec fn spec_be_u48(s: Seq<u8>, i: int) -> u64 {
    (s[i] * 0x100_0000_0000 + s[i + 1] * 0x1_0000_0000 + s[i + 2] * 0x100_0000
        + s[i + 3] * 0x1_0000 + s[i + 4] * 0x100 + s[i + 5]) as u64
}

/// The 64-bit big-endian integer at offset `i` of `s`.
pub open spec fn spec_be_u64(s: Seq<u8>, i: int) -> u64 {
    (s[i] * 0x100_0000_0000_0000 + s[i + 1] * 0x1_0000_0000_0000 + s[i + 2] * 0x100_0000_0000
        + s[i + 3] * 0x1_0000_0000 + s[i + 4] * 0x100_0000 + s[i + 5] * 0x1_0000
        + s[i + 6] * 0x100 + s[i + 7]) as u64
}

/// Reads the 16-bit big-endian integer at `pos`.
pub fn be_u16(buf: &Vec<u8>, pos: usize) -> (r: u16)
    requires
        pos + 2 <= buf@.len(),
    ensures
        r == spec_be_u16(buf@, pos as int),
{
    let end: usize = buf.len();
    assert(pos + 2 <= end);
    (buf[pos] as u16) * 0x100 + (buf[pos + 1] as u16)
}

/// Reads the 32-bit big-endian integer at `pos`.
pub fn be_u32(buf: &Vec<u8>, pos: usize) -> (r: u32)
    requires
        pos + 4 <= buf@.len(),
    ensures
        r == spec_be_u32(buf@, pos as int),
{
    let end: usize = buf.len();
    assert(pos + 4 <= end);
    (buf[pos] as u32) * 0x100_0000 + (buf[pos + 1] as u32) * 0x1_0000
        + (buf[pos + 2] as u32) * 0x100 + (buf[pos + 3] as u32)
}

/// Reads the 48-bit big-endian integer at `pos`; the six bytes are composed
/// by hand since the width is not a power of two.
pub fn be_u48(buf: &Vec<u8>, pos: usize) -> (r: u64)
    requires
        pos + 6 <= buf@.len(),
    ensures
        r == spec_be_u48(buf@, pos as int),
        r < 0x1_0000_0000_0000,
{
    let end: usize = buf.len();
    assert(pos + 6 <= end);
    (buf[pos] as u64) * 0x100_0000_0000 + (buf[pos + 1] as u64) * 0x1_0000_0000
        + (buf[pos + 2] as u64) * 0x100_0000 + (buf[pos + 3] as u64) * 0x1_0000
        + (buf[pos + 4] as u64) * 0x100 + (buf[pos + 5] as u64)
}

/// Reads the 64-bit big-endian integer at `pos`.
pub fn be_u64(buf: &Vec<u8>, pos: usize) -> (r: u64)
    requires
        pos + 8 <= buf@.len(),
    ensures
        r == spec_be_u64(buf@, pos as int),
{
    let end: usize = buf.len();
    assert(pos + 8 <= end);
    (buf[pos] as u64) * 0x100_0000_0000_0000 + (buf[pos + 1] as u64) * 0x1_0000_0000_0000
        + (buf[pos + 2] as u64) * 0x100_0000_0000 + (buf[pos + 3] as u64) * 0x1_0000_0000
        + (buf[pos + 4] as u64) * 0x100_0000 + (buf[pos + 5] as u64) * 0x1_0000
        + (buf[pos + 6] as u64) * 0x100 + (buf[pos + 7] as u64)
}

// ---------------------------------------------------------------------
// Ghost encoders for the big-endian integers
// ---------------------------------------------------------------------

/// The two big-endian bytes of `v`.
pub open spec fn spec_u16_bytes(v: u16) -> Seq<u8> {
    seq![(v / 0x100) as u8, (v % 0x100) as u8]
}

/// The four big-endian bytes of `v`.
pub open spec fn spec_u32_bytes(v: u32) -> Seq<u8> {
    seq![
        (v / 0x100_0000) as u8,
        ((v / 0x1_0000) % 0x100) as u8,
        ((v / 0x100) % 0x100) as u8,
        (v % 0x100) as u8,
    ]
}

/// The six big-endian bytes of `v`, which must fit in 48 bits.
pub open spec fn spec_u48_bytes(v: u64) -> Seq<u8> {
    seq![
        (v / 0x100_0000_0000) as u8,
        ((v / 0x1_0000_0000) % 0x100) as u8,
        ((v / 0x100_0000) % 0x100) as u8,
        ((v / 0x1_0000) % 0x100) as u8,
        ((v / 0x100) % 0x100) as u8,
        (v % 0x100) as u8,
    ]
}

/// The eight big-endian bytes of `v`.
pub open spec fn spec_u64_bytes(v: u64) -> Seq<u8> {
    seq![
        (v / 0x100_0000_0000_0000) as u8,
        ((v / 0x1_0000_0000_0000) % 0x100) as u8,
        ((v / 0x100_0000_0000) % 0x100) as u8,
        ((v / 0x1_0000_0000) % 0x100) as u8,
        ((v / 0x100_0000) % 0x100) as u8,
        ((v / 0x1_0000) % 0x100) as u8,
        ((v / 0x100) % 0x100) as u8,
        (v % 0x100) as u8,
    ]
}

/// Decoding the encoded bytes of `v` at offset `i` gives `v` back.
pub proof fn lemma_be_u16_roundtrip(s: Seq<u8>, i: int, v: u16)
    requires
        0 <= i,
        i + 2 <= s.len(),
        s.subrange(i, i + 2) == spec_u16_bytes(v),
    ensures
        spec_be_u16(s, i) == v,
{
    assert(s[i] == spec_u16_bytes(v)[0] && s[i + 1] == spec_u16_bytes(v)[1]) by {
        assert(s.subrange(i, i + 2)[0] == s[i]);
        assert(s.subrange(i, i + 2)[1] == s[i + 1]);
    }
    lemma_fundamental_div_mod(v as int, 0x100);
    lemma_div_is_ordered(v as int, 0xffff, 0x100);
}

/// Decoding the encoded bytes of `v` at offset `i` gives `v` back.
pub proof fn lemma_be_u32_roundtrip(s: Seq<u8>, i: int, v: u32)
    requires
        0 <= i,
        i + 4 <= s.len(),
        s.subrange(i, i + 4) == spec_u32_bytes(v),
    ensures
        spec_be_u32(s, i) == v,
{
    assert forall|k: int| 0 <= k < 4 implies s[i + k] == spec_u32_bytes(v)[k] by {
        assert(s.subrange(i, i + 4)[k] == s[i + k]);
    }
    let x = v as int;
    lemma_fundamental_div_mod(x, 0x100);
    lemma_fundamental_div_mod(x / 0x100, 0x100);
    lemma_div_denominator(x, 0x100, 0x100);
    lemma_fundamental_div_mod(x / 0x1_0000, 0x100);
    lemma_div_denominator(x, 0x1_0000, 0x100);
    lemma_div_is_ordered(x, 0xffff_ffff, 0x100_0000);
}

/// Decoding the encoded bytes of `v` at offset `i` gives `v` back.
pub proof fn lemma_be_u48_roundtrip(s: Seq<u8>, i: int, v: u64)
    requires
        0 <= i,
        i + 6 <= s.len(),
        v < 0x1_0000_0000_0000,
        s.subrange(i, i + 6) == spec_u48_bytes(v),
    ensures
        spec_be_u48(s, i) == v,
{
    assert forall|k: int| 0 <= k < 6 implies s[i + k] == spec_u48_bytes(v)[k] by {
        assert(s.subrange(i, i + 6)[k] == s[i + k]);
    }
    let x = v as int;
    lemma_fundamental_div_mod(x, 0x100);
    lemma_fundamental_div_mod(x / 0x100, 0x100);
    lemma_div_denominator(x, 0x100, 0x100);
    lemma_fundamental_div_mod(x / 0x1_0000, 0x100);
    lemma_div_denominator(x, 0x1_0000, 0x100);
    lemma_fundamental_div_mod(x / 0x100_0000, 0x100);
    lemma_div_denominator(x, 0x100_0000, 0x100);
    lemma_fundamental_div_mod(x / 0x1_0000_0000, 0x100);
    lemma_div_denominator(x, 0x1_0000_0000, 0x100);
    lemma_div_is_ordered(x, 0xffff_ffff_ffff, 0x100_0000_0000);
}

/// Decoding the encoded bytes of `v` at offset `i` gives `v` back.
pub proof fn lemma_be_u64_roundtrip(s: Seq<u8>, i: int, v: u64)
    requires
        0 <= i,
        i + 8 <= s.len(),
        s.subrange(i, i + 8) == spec_u64_bytes(v),
    ensures
        spec_be_u64(s, i) == v,
{
    assert forall|k: int| 0 <= k < 8 implies s[i + k] == spec_u64_bytes(v)[k] by {
        assert(s.subrange(i, i + 8)[k] == s[i + k]);
    }
    let x = v as int;
    lemma_fundamental_div_mod(x, 0x100);
    lemma_fundamental_div_mod(x / 0x100, 0x100);
    lemma_div_denominator(x, 0x100, 0x100);
    lemma_fundamental_div_mod(x / 0x1_0000, 0x100);
    lemma_div_denominator(x, 0x1_0000, 0x100);
    lemma_fundamental_div_mod(x / 0x100_0000, 0x100);
    lemma_div_denominator(x, 0x100_0000, 0x100);
    lemma_fundamental_div_mod(x / 0x1_0000_0000, 0x100);
    lemma_div_denominator(x, 0x1_0000_0000, 0x100);
    lemma_fundamental_div_mod(x / 0x100_0000_0000, 0x100);
    lemma_div_denominator(x, 0x100_0000_0000, 0x100);
    lemma_fundamental_div_mod(x / 0x1_0000_0000_0000, 0x100);
    lemma_div_denominator(x, 0x1_0000_0000_0000, 0x100);
    lemma_div_is_ordered(x, 0xffff_ffff_ffff_ffff, 0x100_0000_0000_0000);
}

// ---------------------------------------------------------------------
// One-byte booleans and flags
// ---------------------------------------------------------------------

/// `Y` is true, `N` is false, anything else fails.
pub open spec fn spec_bool_code(b: u8) -> Option<bool> {
    if b == 0x59 {  // 'Y'
        Some(true)
    } else if b == 0x4e {  // 'N'
        Some(false)
    } else {
        None
    }
}

/// The byte of a boolean field: `Y` or `N`.
pub open spec fn spec_bool_byte(v: bool) -> u8 {
    if v {
        0x59
    } else {
        0x4e
    }
}

/// Decodes a one-byte boolean field.
pub fn char2bool(b: u8) -> (r: Option<bool>)
    ensures
        r == spec_bool_code(b),
{
    if b == 0x59 {
        Some(true)
    } else if b == 0x4e {
        Some(false)
    } else {
        None
    }
}

/// `Y` is present-true, `N` present-false, space absent; anything else
/// fails.
pub open spec fn spec_maybe_bool_code(b: u8) -> Option<Option<bool>> {
    if b == 0x59 {  // 'Y'
        Some(Some(true))
    } else if b == 0x4e {  // 'N'
        Some(Some(false))
    } else if b == 0x20 {  // ' '
        Some(None)
    } else {
        None
    }
}

/// The byte of a tri-state boolean field: `Y`, `N` or space.
pub open spec fn spec_maybe_bool_byte(v: Option<bool>) -> u8 {
    match v {
        Some(true) => 0x59,
        Some(false) => 0x4e,
        None => 0x20,
    }
}

/// Decodes a tri-state optional boolean field.
pub fn maybe_char2bool(b: u8) -> (r: Option<Option<bool>>)
    ensures
        r == spec_maybe_bool_code(b),
{
    if b == 0x59 {
        Some(Some(true))
    } else if b == 0x4e {
        Some(Some(false))
    } else if b == 0x20 {
        Some(None)
    } else {
        None
    }
}

/// The ETP flag accepts one extra code: `M` counts as present-true, per the
/// later protocol revision.  This exception holds for this one field only.
pub open spec fn spec_etp_flag_code(b: u8) -> Option<Option<bool>> {
    if b == 0x4d {  // 'M'
        Some(Some(true))
    } else {
        spec_maybe_bool_code(b)
    }
}

/// Decodes the ETP flag of a stock-directory body.
pub fn parse_etp_flag(b: u8) -> (r: Option<Option<bool>>)
    ensures
        r == spec_etp_flag_code(b),
{
    if b == 0x4d {
        Some(Some(true))
    } else {
        maybe_char2bool(b)
    }
}

/// The authenticity field: `P` (live/production) is true, `T` (test) is
/// false, anything else fails.
pub open spec fn spec_authenticity_code(b: u8) -> Option<bool> {
    if b == 0x50 {  // 'P'
        Some(true)
    } else if b == 0x54 {  // 'T'
        Some(false)
    } else {
        None
    }
}

/// The byte of an authenticity field: `P` or `T`.
pub open spec fn spec_authenticity_byte(v: bool) -> u8 {
    if v {
        0x50
    } else {
        0x54
    }
}

/// Decodes the authenticity field of a stock-directory body.
pub fn parse_authenticity(b: u8) -> (r: Option<bool>)
    ensures
        r == spec_authenticity_code(b),
{
    if b == 0x50 {
        Some(true)
    } else if b == 0x54 {
        Some(false)
    } else {
        None
    }
}

// ---------------------------------------------------------------------
// Fixed-width ASCII text
// ---------------------------------------------------------------------

/// The first non-ASCII byte among `s[i..i+w]`; meaningful only when one
/// exists.
pub open spec fn spec_first_non_ascii(s: Seq<u8>, i: int, w: int) -> u8
    decreases w,
{
    if w <= 0 {
        0
    } else if s[i] >= 128 {
        s[i]
    } else {
        spec_first_non_ascii(s, i + 1, w - 1)
    }
}

/// The four-byte text field held in `t` (exactly the field's bytes): the
/// bytes verbatim if all are ASCII, otherwise the first offending byte.
pub open spec fn spec_text4(t: Seq<u8>) -> Result<ArrayString4, u8> {
    if ascii_seq(t) {
        Ok(ArrayString4 { bytes: [t[0], t[1], t[2], t[3]] })
    } else {
        Err(spec_first_non_ascii(t, 0, 4))
    }
}

/// The eight-byte text field held in `t` (exactly the field's bytes): the
/// bytes verbatim if all are ASCII, otherwise the first offending byte.
pub open spec fn spec_text8(t: Seq<u8>) -> Result<ArrayString8, u8> {
    if ascii_seq(t) {
        Ok(ArrayString8 { bytes: [t[0], t[1], t[2], t[3], t[4], t[5], t[6], t[7]] })
    } else {
        Err(spec_first_non_ascii(t, 0, 8))
    }
}

/// If the bytes before `i + k` are ASCII and `s[i + k]` is not, then
/// `s[i + k]` is the first non-ASCII byte of the window.
proof fn lemma_first_non_ascii_at(s: Seq<u8>, i: int, w: int, k: int)
    requires
        0 <= k < w,
        forall|j: int| i <= j < i + k ==> s[j] < 128,
        s[i + k] >= 128,
    ensures
        spec_first_non_ascii(s, i, w) == s[i + k],
    decreases k,
{
    if k > 0 {
        lemma_first_non_ascii_at(s, i + 1, w - 1, k - 1);
    }
}

/// Reads the four-byte participant identifier at `pos`.
pub fn mpid(buf: &Vec<u8>, pos: usize) -> (r: Result<ArrayString4, u8>)
    requires
        pos + 4 <= buf@.len(),
    ensures
        r == spec_text4(buf@.subrange(pos as int, pos as int + 4)),
        r matches Ok(t) ==> t.wf(),
{
    let end: usize = buf.len();
    assert(pos + 4 <= end);
    let b = [buf[pos], buf[pos + 1], buf[pos + 2], buf[pos + 3]];
    assert(b@ =~= buf@.subrange(pos as int, pos as int + 4));
    let mut i: usize = 0;
    while i < 4
        invariant
            i <= 4,
            pos + 4 <= buf@.len(),
            b@ =~= buf@.subrange(pos as int, pos as int + 4),
            forall|j: int| 0 <= j < i ==> b@[j] < 128,
        decreases 4 - i,
    {
        if b[i] >= 128 {
            proof {
                let t = buf@.subrange(pos as int, pos as int + 4);
                lemma_first_non_ascii_at(t, 0, 4, i as int);
                assert(!ascii_seq(t)) by {
                    assert(t[i as int] >= 128);
                }
            }
            return Err(b[i]);
        }
        i += 1;
    }
    proof {
        let t = buf@.subrange(pos as int, pos as int + 4);
        assert(ascii_seq(t));
        let target = [t[0], t[1], t[2], t[3]];
        assert(b@ =~= target@);
        assert(b =~= target);
    }
    Ok(ArrayString4 { bytes: b })
}

/// Reads the eight-byte stock symbol at `pos`.
pub fn stock(buf: &Vec<u8>, pos: usize) -> (r: Result<ArrayString8, u8>)
    requires
        pos + 8 <= buf@.len(),
    ensures
        r == spec_text8(buf@.subrange(pos as int, pos as int + 8)),
        r matches Ok(t) ==> t.wf(),
{
    let end: usize = buf.len();
    assert(pos + 8 <= end);
    let b = [
        buf[pos],
        buf[pos + 1],
        buf[pos + 2],
        buf[pos + 3],
        buf[pos + 4],
        buf[pos + 5],
        buf[pos + 6],
        buf[pos + 7],
    ];
    assert(b@ =~= buf@.subrange(pos as int, pos as int + 8));
    let mut i: usize = 0;
    while i < 8
        invariant
            i <= 8,
            pos + 8 <= buf@.len(),
            b@ =~= buf@.subrange(pos as int, pos as int + 8),
            forall|j: int| 0 <= j < i ==> b@[j] < 128,
        decreases 8 - i,
    {
        if b[i] >= 128 {
            proof {
                let t = buf@.subrange(pos as int, pos as int + 8);
                lemma_first_non_ascii_at(t, 0, 8, i as int);
                assert(!ascii_seq(t)) by {
                    assert(t[i as int] >= 128);
                }
            }
            return Err(b[i]);
        }
        i += 1;
    }
    proof {
        let t = buf@.subrange(pos as int, pos as int + 8);
        assert(ascii_seq(t));
        let target = [t[0], t[1], t[2], t[3], t[4], t[5], t[6], t[7]];
        assert(b@ =~= target@);
        assert(b =~= target);
    }
    Ok(ArrayString8 { bytes: b })
}


/// Decoding a well-formed text field's own bytes gives it back.
pub proof fn lemma_text4_roundtrip(t: ArrayString4)
    requires
        t.wf(),
    ensures
        spec_text4(t@) == Ok::<ArrayString4, u8>(t),
{
    let arr = [t@[0], t@[1], t@[2], t@[3]];
    assert(arr@ =~= t.bytes@);
    assert(arr =~= t.bytes);
}

/// Decoding a well-formed text field's own bytes gives it back.
pub proof fn lemma_text8_roundtrip(t: ArrayString8)
    requires
        t.wf(),
    ensures
        spec_text8(t@) == Ok::<ArrayString8, u8>(t),
{
    let arr = [t@[0], t@[1], t@[2], t@[3], t@[4], t@[5], t@[6], t@[7]];
    assert(arr@ =~= t.bytes@);
    assert(arr =~= t.bytes);
}

/// Decoding the byte of a boolean field gives the value back.
pub proof fn lemma_bool_code_roundtrip(v: bool)
    ensures
        spec_bool_code(spec_bool_byte(v)) == Some(v),
{
}

/// Decoding the byte of a tri-state boolean field gives the value back.
pub proof fn lemma_maybe_bool_code_roundtrip(v: Option<bool>)
    ensures
        spec_maybe_bool_code(spec_maybe_bool_byte(v)) == Some(v),
{
}

/// Decoding the byte of an ETP flag gives the value back: the encoder
/// never writes the alternate `M` code.
pub proof fn lemma_etp_flag_code_roundtrip(v: Option<bool>)
    ensures
        spec_etp_flag_code(spec_maybe_bool_byte(v)) == Some(v),
{
}

/// Decoding the byte of an authenticity field gives the value back.
pub proof fn lemma_authenticity_code_roundtrip(v: bool)
    ensures
        spec_authenticity_code(spec_authenticity_byte(v)) == Some(v),
{
}

} // verus!
