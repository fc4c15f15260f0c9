//! Little-endian integers, decoded by `binrw` and stated as arithmetic on bytes.

use binrw::BinRead;
use vstd::prelude::*;

verus! {

/// The error type of `binrw`, which the decoding calls below return.
#[verifier::external_type_specification]
#[verifier::external_body]
pub struct ExBinrwError(binrw::Error);

/// The unsigned 16-bit value whose little-endian bytes start at `at`.
pub open spec fn u16_at(bytes: Seq<u8>, at: int) -> u16 {
    (bytes[at] + 256 * bytes[at + 1]) as u16
}

/// The unsigned 32-bit value whose little-endian bytes start at `at`.
pub open spec fn u32_at(bytes: Seq<u8>, at: int) -> u32 {
    (bytes[at] + 256 * bytes[at + 1] + 65536 * bytes[at + 2] + 16777216 * bytes[at + 3]) as u32
}

/// The signed 16-bit value whose little-endian two's-complement bytes start at `at`.
pub open spec fn i16_at(bytes: Seq<u8>, at: int) -> i16 {
    if u16_at(bytes, at) < 0x8000 {
        u16_at(bytes, at) as i16
    } else {
        (u16_at(bytes, at) - 0x1_0000) as i16
    }
}

/// The signed 32-bit value whose little-endian two's-complement bytes start at `at`.
pub open spec fn i32_at(bytes: Seq<u8>, at: int) -> i32 {
    if u32_at(bytes, at) < 0x8000_0000 {
        u32_at(bytes, at) as i32
    } else {
        (u32_at(bytes, at) - 0x1_0000_0000) as i32
    }
}

/// `<u16 as binrw::BinRead>::read_le` on a cursor over `bytes`. It fails when fewer
/// than two bytes are there, and otherwise gives the little-endian value of the
/// first two.
#[verifier::external_body]
fn binrw_u16(bytes: &[u8]) -> (r: Result<u16, binrw::Error>)
    ensures
        r is Ok <==> bytes@.len() >= 2,
        r matches Ok(v) ==> v == u16_at(bytes@, 0),
{
    u16::read_le(&mut binrw::io::Cursor::new(bytes))
}

/// `<u32 as binrw::BinRead>::read_le` on a cursor over `bytes`. It fails when fewer
/// than four bytes are there, and otherwise gives the little-endian value of the
/// first four.
#[verifier::external_body]
fn binrw_u32(bytes: &[u8]) -> (r: Result<u32, binrw::Error>)
    ensures
        r is Ok <==> bytes@.len() >= 4,
        r matches Ok(v) ==> v == u32_at(bytes@, 0),
{
    u32::read_le(&mut binrw::io::Cursor::new(bytes))
}

/// `<i16 as binrw::BinRead>::read_le` on a cursor over `bytes`. It fails when fewer
/// than two bytes are there, and otherwise gives the two's-complement
/// little-endian value of the first two.
#[verifier::external_body]
fn binrw_i16(bytes: &[u8]) -> (r: Result<i16, binrw::Error>)
    ensures
        r is Ok <==> bytes@.len() >= 2,
        r matches Ok(v) ==> v == i16_at(bytes@, 0),
{
    i16::read_le(&mut binrw::io::Cursor::new(bytes))
}

/// `<i32 as binrw::BinRead>::read_le` on a cursor over `bytes`. It fails when fewer
/// than four bytes are there, and otherwise gives the two's-complement
/// little-endian value of the first four.
#[verifier::external_body]
fn binrw_i32(bytes: &[u8]) -> (r: Result<i32, binrw::Error>)
    ensures
        r is Ok <==> bytes@.len() >= 4,
        r matches Ok(v) ==> v == i32_at(bytes@, 0),
{
    i32::read_le(&mut binrw::io::Cursor::new(bytes))
}

/// Decodes the unsigned 16-bit value at `at`, or nothing when the bytes end before it does.
pub fn read_u16(bytes: &[u8], at: usize) -> (r: Option<u16>)
    ensures
        r is Some <==> at + 2 <= bytes@.len(),
        r matches Some(v) ==> v == u16_at(bytes@, at as int),
{
    if at > bytes.len() {
        return None;
    }
    let rest = vstd::slice::slice_subrange(bytes, at, bytes.len());
    match binrw_u16(rest) {
        Ok(v) => Some(v),
        Err(_) => None,
    }
}

/// Decodes the unsigned 32-bit value at `at`, or nothing when the bytes end before it does.
pub fn read_u32(bytes: &[u8], at: usize) -> (r: Option<u32>)
    ensures
        r is Some <==> at + 4 <= bytes@.len(),
        r matches Some(v) ==> v == u32_at(bytes@, at as int),
{
    if at > bytes.len() {
        return None;
    }
    let rest = vstd::slice::slice_subrange(bytes, at, bytes.len());
    match binrw_u32(rest) {
        Ok(v) => Some(v),
        Err(_) => None,
    }
}

/// Decodes the signed 16-bit value at `at`, or nothing when the bytes end before it does.
pub fn read_i16(bytes: &[u8], at: usize) -> (r: Option<i16>)
    ensures
        r is Some <==> at + 2 <= bytes@.len(),
        r matches Some(v) ==> v == i16_at(bytes@, at as int),
{
    if at > bytes.len() {
        return None;
    }
    let rest = vstd::slice::slice_subrange(bytes, at, bytes.len());
    match binrw_i16(rest) {
        Ok(v) => Some(v),
        Err(_) => None,
    }
}

/// Decodes the signed 32-bit value at `at`, or nothing when the bytes end before it does.
pub fn read_i32(bytes: &[u8], at: usize) -> (r: Option<i32>)
    ensures
        r is Some <==> at + 4 <= bytes@.len(),
        r matches Some(v) ==> v == i32_at(bytes@, at as int),
{
    if at > bytes.len() {
        return None;
    }
    let rest = vstd::slice::slice_subrange(bytes, at, bytes.len());
    match binrw_i32(rest) {
        Ok(v) => Some(v),
        Err(_) => None,
    }
}

} // verus!
