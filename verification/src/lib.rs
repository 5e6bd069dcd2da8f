//! A native conformance fixture: a fixed catalogue of parameterless entry
//! points, each returning one deterministic value with an exact, width-precise
//! bit pattern, so that a host-side binding layer can check that it marshals
//! values across a foreign-function boundary correctly.
//!
//! Every function here is total and stateless: extremal constants for each
//! fixed signed and unsigned integer width, the bytes of a fixed text literal,
//! and a fixed-layout record with four fields set to a known sequence.
use vstd::prelude::*;

verus! {

/// The minimum 8-bit signed value. Its bit pattern is the sign bit alone.
pub fn test_i8_sync() -> (r: i8)
    ensures
        r == i8::MIN,
        r as u8 == 0x80u8,
{
    proof {
        assert(i8::MIN as u8 == 0x80u8) by (bit_vector);
    }
    i8::MIN
}

/// The maximum 8-bit unsigned value. Its bit pattern is all ones.
pub fn test_u8_sync() -> (r: u8)
    ensures
        r == u8::MAX,
        !r == 0u8,
{
    proof {
        assert(!u8::MAX == 0u8) by (bit_vector);
    }
    u8::MAX
}

/// The minimum 16-bit signed value. Its bit pattern is the sign bit alone.
pub fn test_i16_sync() -> (r: i16)
    ensures
        r == i16::MIN,
        r as u16 == 0x8000u16,
{
    proof {
        assert(i16::MIN as u16 == 0x8000u16) by (bit_vector);
    }
    i16::MIN
}

/// The maximum 16-bit unsigned value. Its bit pattern is all ones.
pub fn test_u16_sync() -> (r: u16)
    ensures
        r == u16::MAX,
        !r == 0u16,
{
    proof {
        assert(!u16::MAX == 0u16) by (bit_vector);
    }
    u16::MAX
}

/// The minimum 32-bit signed value. Its bit pattern is the sign bit alone.
pub fn test_i32_sync() -> (r: i32)
    ensures
        r == i32::MIN,
        r as u32 == 0x8000_0000u32,
{
    proof {
        assert(i32::MIN as u32 == 0x8000_0000u32) by (bit_vector);
    }
    i32::MIN
}

/// The maximum 32-bit unsigned value. Its bit pattern is all ones.
pub fn test_u32_sync() -> (r: u32)
    ensures
        r == u32::MAX,
        !r == 0u32,
{
    proof {
        assert(!u32::MAX == 0u32) by (bit_vector);
    }
    u32::MAX
}

/// The fixed text literal that the text export carries across the boundary.
pub open spec fn text_literal() -> Seq<char> {
    "Hello, world!"@
}

/// The encoding of the fixed text literal: one byte per character, since the
/// literal is plain ASCII.
pub open spec fn text_bytes() -> Seq<u8> {
    seq![72u8, 101u8, 108u8, 108u8, 111u8, 44u8, 32u8, 119u8, 111u8, 114u8, 108u8, 100u8, 33u8]
}

/// The bytes of the fixed text literal, in order, with no offset at either
/// end. The caller is expected to know the length (13) out of band.
pub fn test_c_string_sync() -> (r: Vec<u8>)
    ensures
        r@ == text_bytes(),
{
    let mut v: Vec<u8> = Vec::new();
    v.push(72u8);
    v.push(101u8);
    v.push(108u8);
    v.push(108u8);
    v.push(111u8);
    v.push(44u8);
    v.push(32u8);
    v.push(119u8);
    v.push(111u8);
    v.push(114u8);
    v.push(108u8);
    v.push(100u8);
    v.push(33u8);
    proof {
        assert(v@ =~= text_bytes());
    }
    v
}

/// The byte sequence of the text export is exactly the character sequence of
/// the literal, read byte for byte: same length, and each byte is the code of
/// the character at the same position.
pub proof fn lemma_text_bytes_encode_literal()
    ensures
        text_bytes().len() == text_literal().len(),
        forall|i: int|
            0 <= i < text_literal().len() ==> text_bytes()[i] == text_literal()[i] as u8,
{
    reveal_strlit("Hello, world!");
}

/// A fixed-layout record of four unsigned 32-bit fields, field order
/// significant. The boundary copy of this record follows the platform's C
/// structure layout; this one carries the field values the contracts speak of.
pub struct TestStruct {
    pub a: u32,
    pub b: u32,
    pub c: u32,
    pub d: u32,
}

/// A fresh record whose four fields, in declared order, hold the sequence
/// 1, 2, 3, 4. Every call returns an independent value with the same content.
pub fn test_struct_sync() -> (r: TestStruct)
    ensures
        r.a == 1u32,
        r.b == 2u32,
        r.c == 3u32,
        r.d == 4u32,
{
    TestStruct { a: 1, b: 2, c: 3, d: 4 }
}

} // verus!
