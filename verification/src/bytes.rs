//! Big-endian integers in byte sequences.
//!
//! The class-file format stores every multi-byte quantity most significant
//! byte first. The spec functions here say what such a quantity is; the
//! executable readers are proved against them.

use byteorder::{BigEndian, ByteOrder};
use vstd::prelude::*;
use vstd::slice::slice_subrange;

verus! {

/// The unsigned 16-bit quantity stored at `at`.
pub open spec fn be_u16(s: Seq<u8>, at: int) -> u16 {
    (s[at] * 0x100 + s[at + 1]) as u16
}

/// The unsigned 32-bit quantity stored at `at`.
pub open spec fn be_u32(s: Seq<u8>, at: int) -> u32 {
    (s[at] * 0x100_0000 + s[at + 1] * 0x1_0000 + s[at + 2] * 0x100 + s[at + 3]) as u32
}

/// The unsigned 64-bit quantity stored at `at`.
pub open spec fn be_u64(s: Seq<u8>, at: int) -> u64 {
    (be_u32(s, at) * 0x1_0000_0000 + be_u32(s, at + 4)) as u64
}

/// The signed byte that the unsigned byte `v` stands for in two's complement.
pub open spec fn i8_of(v: u8) -> i8 {
    if v >= 0x80 {
        (v - 0x100) as i8
    } else {
        v as i8
    }
}

/// The signed number that `v` stands for in two's complement.
pub open spec fn i16_of(v: u16) -> i16 {
    if v >= 0x8000 {
        (v - 0x1_0000) as i16
    } else {
        v as i16
    }
}

/// The signed number that `v` stands for in two's complement.
pub open spec fn i32_of(v: u32) -> i32 {
    if v >= 0x8000_0000 {
        (v - 0x1_0000_0000) as i32
    } else {
        v as i32
    }
}

/// The signed number that `v` stands for in two's complement.
pub open spec fn i64_of(v: u64) -> i64 {
    if v >= 0x8000_0000_0000_0000 {
        (v - 0x1_0000_0000_0000_0000) as i64
    } else {
        v as i64
    }
}

/// The signed byte stored at `at`.
pub open spec fn be_i8(s: Seq<u8>, at: int) -> i8 {
    i8_of(s[at])
}

/// The signed 16-bit quantity stored at `at`.
pub open spec fn be_i16(s: Seq<u8>, at: int) -> i16 {
    i16_of(be_u16(s, at))
}

/// The signed 32-bit quantity stored at `at`.
pub open spec fn be_i32(s: Seq<u8>, at: int) -> i32 {
    i32_of(be_u32(s, at))
}

/// `byteorder::BigEndian::read_u16`: the first two bytes of `buf`, most
/// significant first. The outside function panics on a shorter buffer, which
/// the precondition rules out.
#[verifier::external_body]
fn order_read_u16(buf: &[u8]) -> (r: u16)
    requires
        buf@.len() >= 2,
    ensures
        r == be_u16(buf@, 0),
{
    BigEndian::read_u16(buf)
}

/// `byteorder::BigEndian::read_u32`: the first four bytes of `buf`, most
/// significant first. Panics on a shorter buffer, ruled out here.
#[verifier::external_body]
fn order_read_u32(buf: &[u8]) -> (r: u32)
    requires
        buf@.len() >= 4,
    ensures
        r == be_u32(buf@, 0),
{
    BigEndian::read_u32(buf)
}

/// `byteorder::BigEndian::read_u64`: the first eight bytes of `buf`, most
/// significant first. Panics on a shorter buffer, ruled out here.
#[verifier::external_body]
fn order_read_u64(buf: &[u8]) -> (r: u64)
    requires
        buf@.len() >= 8,
    ensures
        r == be_u64(buf@, 0),
{
    BigEndian::read_u64(buf)
}

/// `byteorder::BigEndian::read_i16`: the first two bytes of `buf` as a two's
/// complement number. Panics on a shorter buffer, ruled out here.
#[verifier::external_body]
fn order_read_i16(buf: &[u8]) -> (r: i16)
    requires
        buf@.len() >= 2,
    ensures
        r == be_i16(buf@, 0),
{
    BigEndian::read_i16(buf)
}

/// `byteorder::BigEndian::read_i32`: the first four bytes of `buf` as a two's
/// complement number. Panics on a shorter buffer, ruled out here.
#[verifier::external_body]
fn order_read_i32(buf: &[u8]) -> (r: i32)
    requires
        buf@.len() >= 4,
    ensures
        r == be_i32(buf@, 0),
{
    BigEndian::read_i32(buf)
}

/// Whether `n` bytes can be read at `at`.
pub open spec fn in_bounds(s: Seq<u8>, at: int, n: int) -> bool {
    0 <= at && at + n <= s.len()
}

/// The unsigned byte at `at`, or `None` past the end.
pub fn u8_at(bytes: &[u8], at: usize) -> (r: Option<u8>)
    ensures
        r is Some <==> in_bounds(bytes@, at as int, 1),
        r is Some ==> at + 1 <= usize::MAX,
        r matches Some(v) ==> v == bytes@[at as int],
{
    if at < bytes.len() {
        Some(bytes[at])
    } else {
        None
    }
}

/// The signed byte at `at`, or `None` past the end.
pub fn i8_at(bytes: &[u8], at: usize) -> (r: Option<i8>)
    ensures
        r is Some <==> in_bounds(bytes@, at as int, 1),
        r is Some ==> at + 1 <= usize::MAX,
        r matches Some(v) ==> v == be_i8(bytes@, at as int),
{
    if at < bytes.len() {
        let b: u8 = bytes[at];
        if b < 0x80 {
            Some(b as i8)
        } else {
            Some((b as i16 - 0x100) as i8)
        }
    } else {
        None
    }
}

/// The unsigned 16-bit quantity at `at`, or `None` where it would run past
/// the end.
pub fn u16_at(bytes: &[u8], at: usize) -> (r: Option<u16>)
    ensures
        r is Some <==> in_bounds(bytes@, at as int, 2),
        r is Some ==> at + 2 <= usize::MAX,
        r matches Some(v) ==> v == be_u16(bytes@, at as int),
{
    if bytes.len() >= 2 && at <= bytes.len() - 2 {
        Some(order_read_u16(slice_subrange(bytes, at, at + 2)))
    } else {
        None
    }
}

/// The signed 16-bit quantity at `at`, or `None` where it would run past the
/// end.
pub fn i16_at(bytes: &[u8], at: usize) -> (r: Option<i16>)
    ensures
        r is Some <==> in_bounds(bytes@, at as int, 2),
        r is Some ==> at + 2 <= usize::MAX,
        r matches Some(v) ==> v == be_i16(bytes@, at as int),
{
    if bytes.len() >= 2 && at <= bytes.len() - 2 {
        Some(order_read_i16(slice_subrange(bytes, at, at + 2)))
    } else {
        None
    }
}

/// The unsigned 32-bit quantity at `at`, or `None` where it would run past
/// the end.
pub fn u32_at(bytes: &[u8], at: usize) -> (r: Option<u32>)
    ensures
        r is Some <==> in_bounds(bytes@, at as int, 4),
        r is Some ==> at + 4 <= usize::MAX,
        r matches Some(v) ==> v == be_u32(bytes@, at as int),
{
    if bytes.len() >= 4 && at <= bytes.len() - 4 {
        Some(order_read_u32(slice_subrange(bytes, at, at + 4)))
    } else {
        None
    }
}

/// The signed 32-bit quantity at `at`, or `None` where it would run past the
/// end.
pub fn i32_at(bytes: &[u8], at: usize) -> (r: Option<i32>)
    ensures
        r is Some <==> in_bounds(bytes@, at as int, 4),
        r is Some ==> at + 4 <= usize::MAX,
        r matches Some(v) ==> v == be_i32(bytes@, at as int),
{
    if bytes.len() >= 4 && at <= bytes.len() - 4 {
        Some(order_read_i32(slice_subrange(bytes, at, at + 4)))
    } else {
        None
    }
}

/// The unsigned 64-bit quantity at `at`, or `None` where it would run past
/// the end.
pub fn u64_at(bytes: &[u8], at: usize) -> (r: Option<u64>)
    ensures
        r is Some <==> in_bounds(bytes@, at as int, 8),
        r is Some ==> at + 8 <= usize::MAX,
        r matches Some(v) ==> v == be_u64(bytes@, at as int),
{
    if bytes.len() >= 8 && at <= bytes.len() - 8 {
        Some(order_read_u64(slice_subrange(bytes, at, at + 8)))
    } else {
        None
    }
}

/// The two's complement reading of a 32-bit quantity.
pub fn u32_to_i32(v: u32) -> (r: i32)
    ensures
        r == i32_of(v),
{
    if v < 0x8000_0000 {
        v as i32
    } else {
        (v as i64 - 0x1_0000_0000) as i32
    }
}

/// The two's complement reading of a 64-bit quantity.
pub fn u64_to_i64(v: u64) -> (r: i64)
    ensures
        r == i64_of(v),
{
    if v < 0x8000_0000_0000_0000 {
        v as i64
    } else {
        (v as i128 - 0x1_0000_0000_0000_0000) as i64
    }
}

} // verus!

verus! {

/// A byte as a 16-bit quantity.
pub fn u8_to_u16(v: u8) -> (r: u16)
    ensures
        r == v,
{
    v as u16
}

/// A signed byte as a 32-bit number.
pub fn i8_to_i32(v: i8) -> (r: i32)
    ensures
        r == v,
{
    v as i32
}

/// A signed 16-bit number as a 32-bit number.
pub fn i16_to_i32(v: i16) -> (r: i32)
    ensures
        r == v,
{
    v as i32
}

} // verus!

verus! {

/// A signed 16-bit number as a mathematical integer.
pub open spec fn int_of_i16(v: i16) -> int {
    v as int
}

/// A signed 32-bit number as a mathematical integer.
pub open spec fn int_of_i32(v: i32) -> int {
    v as int
}

/// The 16-bit number that holds `v`; meaningful where `v` fits.
pub open spec fn i16_of_int(v: int) -> i16 {
    v as i16
}

/// The 32-bit number that holds `v`; meaningful where `v` fits.
pub open spec fn i32_of_int(v: int) -> i32 {
    v as i32
}

/// A 32-bit number as a 16-bit one, where it fits.
pub fn i32_to_i16(v: i32) -> (r: i16)
    requires
        -0x8000 <= v < 0x8000,
    ensures
        r == v,
{
    v as i16
}

} // verus!

verus! {

/// A signed byte as a 32-bit number.
pub open spec fn i32_of_i8(v: i8) -> i32 {
    v as i32
}

/// A signed 16-bit number as a 32-bit number.
pub open spec fn i32_of_i16(v: i16) -> i32 {
    v as i32
}

} // verus!
